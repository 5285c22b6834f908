//! How vertices and lights lie in their buffers.

use crate::cube::Light;
use crate::geometry::Vertex;
use vstd::prelude::*;

verus! {

/// Words in one vertex: position, normal and colour of four words each,
/// and a texture coordinate of two.
pub const VERTEX_WORDS: usize = 14;

/// Bytes from one vertex to the next in a vertex buffer.
pub const VERTEX_STRIDE: u64 = 56;

/// One attribute of a vertex as the vertex stage sees it: where it begins
/// in the vertex, in bytes, the shader location it is bound to, and how
/// many single-precision components it has.
#[derive(Clone, Copy, Debug, PartialEq, Eq)]
pub struct VertexAttribute {
    pub offset: u64,
    pub shader_location: u32,
    pub components: u32,
}

/// The layout of a vertex buffer that is stepped once per vertex.
#[derive(Clone, Debug)]
pub struct VertexBufferLayout {
    pub array_stride: u64,
    pub attributes: Vec<VertexAttribute>,
}

/// The attributes of a vertex: each begins where the one before it ends.
pub open spec fn vertex_attributes() -> Seq<VertexAttribute> {
    seq![
        (VertexAttribute { offset: 0, shader_location: 0, components: 4 }),
        (VertexAttribute { offset: 16, shader_location: 1, components: 4 }),
        (VertexAttribute { offset: 32, shader_location: 2, components: 4 }),
        (VertexAttribute { offset: 48, shader_location: 3, components: 2 }),
    ]
}

/// The words of one vertex in buffer order.
pub open spec fn vertex_words(v: Vertex) -> Seq<u32> {
    v.position@ + v.normal@ + v.color@ + v.tex_coords@
}

/// The words of a list of vertices, vertex after vertex.
pub open spec fn vertices_words(vertices: Seq<Vertex>) -> Seq<u32>
    decreases vertices.len(),
{
    if vertices.len() == 0 {
        Seq::empty()
    } else {
        vertices_words(vertices.drop_last()) + vertex_words(vertices.last())
    }
}

/// The words of the light's uniform buffer.
pub open spec fn light_words(l: Light) -> Seq<u32> {
    l.specular_color@ + seq![
        l.ambient_intensity,
        l.diffuse_intensity,
        l.specular_intensity,
        l.specular_shininess,
        l.is_two_side as u32,
    ]
}

impl Vertex {
    /// The layout of a buffer of vertices: position at location 0, normal
    /// at 1, colour at 2, texture coordinate at 3.
    pub fn desc() -> (layout: VertexBufferLayout)
        ensures
            layout.array_stride == VERTEX_STRIDE,
            layout.attributes@ == vertex_attributes(),
    {
        let mut attributes: Vec<VertexAttribute> = Vec::new();
        attributes.push(VertexAttribute { offset: 0, shader_location: 0, components: 4 });
        attributes.push(VertexAttribute { offset: 16, shader_location: 1, components: 4 });
        attributes.push(VertexAttribute { offset: 32, shader_location: 2, components: 4 });
        attributes.push(VertexAttribute { offset: 48, shader_location: 3, components: 2 });
        assert(attributes@ =~= vertex_attributes());
        VertexBufferLayout { array_stride: VERTEX_STRIDE, attributes }
    }

    /// Appends the words of this vertex in buffer order.
    pub fn append_words(&self, words: &mut Vec<u32>)
        ensures
            final(words)@ == old(words)@ + vertex_words(*self),
    {
        let ghost before = words@;
        words.push(self.position[0]);
        words.push(self.position[1]);
        words.push(self.position[2]);
        words.push(self.position[3]);
        words.push(self.normal[0]);
        words.push(self.normal[1]);
        words.push(self.normal[2]);
        words.push(self.normal[3]);
        words.push(self.color[0]);
        words.push(self.color[1]);
        words.push(self.color[2]);
        words.push(self.color[3]);
        words.push(self.tex_coords[0]);
        words.push(self.tex_coords[1]);
        assert(words@ =~= before + vertex_words(*self));
    }
}

impl Light {
    /// The words of the light's uniform buffer: the specular colour, the
    /// four intensities, and the two-sidedness flag in two's complement.
    pub fn words(&self) -> (words: Vec<u32>)
        ensures
            words@ == light_words(*self),
    {
        let mut words: Vec<u32> = Vec::new();
        words.push(self.specular_color[0]);
        words.push(self.specular_color[1]);
        words.push(self.specular_color[2]);
        words.push(self.specular_color[3]);
        words.push(self.ambient_intensity);
        words.push(self.diffuse_intensity);
        words.push(self.specular_intensity);
        words.push(self.specular_shininess);
        words.push(self.is_two_side as u32);
        assert(words@ =~= light_words(*self));
        words
    }
}

/// The attributes of the layout are exactly the parts of a vertex's words:
/// attribute `a` holds the words from `a.offset / 4` on, as many as it has
/// components, and the stride is the length of the whole.
pub proof fn lemma_layout_matches_words(v: Vertex)
    ensures
        vertex_words(v).len() == VERTEX_WORDS,
        4 * vertex_words(v).len() == VERTEX_STRIDE,
        vertex_words(v).subrange(0, 4) == v.position@,
        vertex_words(v).subrange(4, 8) == v.normal@,
        vertex_words(v).subrange(8, 12) == v.color@,
        vertex_words(v).subrange(12, 14) == v.tex_coords@,
{
    assert(vertex_words(v).subrange(0, 4) =~= v.position@);
    assert(vertex_words(v).subrange(4, 8) =~= v.normal@);
    assert(vertex_words(v).subrange(8, 12) =~= v.color@);
    assert(vertex_words(v).subrange(12, 14) =~= v.tex_coords@);
}

/// A list of vertices takes fourteen words a vertex, and vertex `i` lies
/// from word `14 * i` on.
pub proof fn lemma_vertices_words(vertices: Seq<Vertex>, i: int)
    requires
        0 <= i < vertices.len(),
    ensures
        vertices_words(vertices).len() == VERTEX_WORDS * vertices.len(),
        vertices_words(vertices).subrange(14 * i, 14 * i + 14) == vertex_words(vertices[i]),
    decreases vertices.len(),
{
    lemma_vertices_words_length(vertices);
    lemma_vertices_words_length(vertices.drop_last());
    lemma_layout_matches_words(vertices.last());
    if i == vertices.len() - 1 {
        assert(vertices_words(vertices).subrange(14 * i, 14 * i + 14) =~= vertex_words(
            vertices[i],
        ));
    } else {
        lemma_vertices_words(vertices.drop_last(), i);
        assert(vertices_words(vertices).subrange(14 * i, 14 * i + 14) =~= vertices_words(
            vertices.drop_last(),
        ).subrange(14 * i, 14 * i + 14));
    }
}

/// A list of vertices takes fourteen words a vertex.
pub proof fn lemma_vertices_words_length(vertices: Seq<Vertex>)
    ensures
        vertices_words(vertices).len() == VERTEX_WORDS * vertices.len(),
    decreases vertices.len(),
{
    if vertices.len() > 0 {
        lemma_vertices_words_length(vertices.drop_last());
        lemma_layout_matches_words(vertices.last());
    }
}

/// The contents of a vertex buffer: the words of each vertex in turn.
pub fn vertex_buffer_words(vertices: &Vec<Vertex>) -> (words: Vec<u32>)
    ensures
        words@ == vertices_words(vertices@),
        words@.len() == VERTEX_WORDS * vertices@.len(),
{
    let mut words: Vec<u32> = Vec::new();
    let mut i: usize = 0;
    while i < vertices.len()
        invariant
            i <= vertices@.len(),
            words@ == vertices_words(vertices@.take(i as int)),
        decreases vertices@.len() - i,
    {
        vertices[i].append_words(&mut words);
        proof {
            let next = vertices@.take(i + 1);
            assert(next.drop_last() =~= vertices@.take(i as int));
            assert(next.last() == vertices@[i as int]);
        }
        i += 1;
    }
    proof {
        assert(vertices@.take(i as int) =~= vertices@);
        lemma_vertices_words_length(vertices@);
    }
    words
}

} // verus!
