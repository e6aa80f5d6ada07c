//! Descriptions of two-stage command pipelines: what is to be read and how
//! it is to be narrowed down. Running a pipeline is the host's business.

use vstd::prelude::*;
use vstd::string::*;
use crate::options::texts_of;

verus! {

/// Two commands, of which the second consumes what the first produces.
pub struct Pipeline<C1, C2> {
    first: C1,
    second: C2,
}

impl<C1, C2> Pipeline<C1, C2> {
    /// The command that runs first.
    pub closed spec fn first_of(&self) -> C1 {
        self.first
    }

    /// The command that runs second.
    pub closed spec fn second_of(&self) -> C2 {
        self.second
    }

    /// Chains two commands.
    pub fn new(first: C1, second: C2) -> (r: Self)
        ensures
            r.first_of() == first,
            r.second_of() == second,
    {
        Pipeline { first, second }
    }

    /// The command that runs first.
    pub fn first(&self) -> (r: &C1)
        ensures
            *r == self.first_of(),
    {
        &self.first
    }

    /// The command that runs second.
    pub fn second(&self) -> (r: &C2)
        ensures
            *r == self.second_of(),
    {
        &self.second
    }

    /// Takes the pipeline apart again.
    pub fn into_parts(self) -> (r: (C1, C2))
        ensures
            r.0 == self.first_of(),
            r.1 == self.second_of(),
    {
        (self.first, self.second)
    }
}

/// Concatenate files, then keep the lines that match a pattern.
pub struct CatGrepPipeline {
    files: Vec<String>,
    pattern: String,
}

impl View for CatGrepPipeline {
    type V = (Seq<Seq<char>>, Seq<char>);

    closed spec fn view(&self) -> (Seq<Seq<char>>, Seq<char>) {
        (texts_of(self.files@), self.pattern@)
    }
}

impl CatGrepPipeline {
    /// A pipeline over `files`, in their order, that keeps what matches `pattern`.
    pub fn new(files: Vec<String>, pattern: String) -> (r: Self)
        ensures
            r@ == (texts_of(files@), pattern@),
    {
        CatGrepPipeline { files, pattern }
    }

    /// The files to read, in order.
    pub fn files(&self) -> (r: &Vec<String>)
        ensures
            texts_of(r@) == self@.0,
    {
        &self.files
    }

    /// The pattern to match.
    pub fn pattern(&self) -> (r: &str)
        ensures
            r@ == self@.1,
    {
        self.pattern.as_str()
    }
}

/// Concatenate files, then keep the first lines.
pub struct CatHeadPipeline {
    files: Vec<String>,
    lines: usize,
}

impl View for CatHeadPipeline {
    type V = (Seq<Seq<char>>, usize);

    closed spec fn view(&self) -> (Seq<Seq<char>>, usize) {
        (texts_of(self.files@), self.lines)
    }
}

impl CatHeadPipeline {
    /// A pipeline over `files`, in their order, that keeps the first `lines` lines.
    pub fn new(files: Vec<String>, lines: usize) -> (r: Self)
        ensures
            r@ == (texts_of(files@), lines),
    {
        CatHeadPipeline { files, lines }
    }

    /// The files to read, in order.
    pub fn files(&self) -> (r: &Vec<String>)
        ensures
            texts_of(r@) == self@.0,
    {
        &self.files
    }

    /// The number of lines to keep.
    pub fn lines(&self) -> (r: usize)
        ensures
            r == self@.1,
    {
        self.lines
    }
}

} // verus!
