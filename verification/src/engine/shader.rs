//! Shader sources, by name.

use vstd::prelude::*;

verus! {

/// The name and the source text of a shader, as character sequences.
pub struct ShaderText {
    pub name: Seq<char>,
    pub source: Seq<char>,
}

/// A shader program that is compiled into the binary: a name by which the
/// renderer finds it, and its source text.
pub struct Shader {
    name: &'static str,
    source: &'static str,
}

impl View for Shader {
    type V = ShaderText;

    closed spec fn view(&self) -> ShaderText {
        ShaderText { name: self.name@, source: self.source@ }
    }
}

impl Shader {
    pub fn new(name: &'static str, source: &'static str) -> (shader: Self)
        ensures
            shader@ == (ShaderText { name: name@, source: source@ }),
    {
        Shader { name, source }
    }

    pub fn name(&self) -> (name: &'static str)
        ensures
            name@ == self@.name,
    {
        self.name
    }

    pub fn source(&self) -> (source: &'static str)
        ensures
            source@ == self@.source,
    {
        self.source
    }
}

} // verus!
