//! Mesh shader files: a header that describes the shader, a separator
//! line, and the shader text.

use vstd::prelude::*;
use crate::gpu::BlendState;
use crate::text::characters;

verus! {

/// The vertex stage of a mesh shader.
#[derive(Debug)]
pub struct VertexStage {
    pub entry_point: String,
}

/// A fragment stage of a mesh shader.
#[derive(Debug)]
pub struct FragmentStage {
    pub entry_point: String,
    pub blending_mode: BlendState,
}

/// The header of a mesh shader file.
#[derive(Debug)]
pub struct MeshShaderMetadata {
    pub name: String,
    pub path: String,
    pub imports: Vec<String>,
    pub textures: Vec<String>,
    pub vertex_stage: VertexStage,
    pub fragment_stages: Vec<FragmentStage>,
}

/// A mesh shader file, taken apart.
#[derive(Debug)]
pub struct MeshShaderFile {
    pub header: MeshShaderMetadata,
    pub source_text: String,
}

/// Why a text is no mesh shader file.
#[derive(Debug)]
pub enum ShaderFileError {
    /// The separator does not occur: header and text are not told apart.
    MissingSeparator,
    /// The separator occurs more than once.
    MultipleSeparators,
    /// The header cannot be understood; the message says why.
    Header(String),
}

/// The text of the line that separates header and shader text.
pub open spec fn spec_separator() -> Seq<char> {
    "#END CUBENSIS"@
}

/// Whether `pattern` stands in `text` at position `at`.
pub open spec fn spec_occurs_at(text: Seq<char>, pattern: Seq<char>, at: int) -> bool {
    &&& 0 <= at
    &&& at + pattern.len() <= text.len()
    &&& text.subrange(at, at + pattern.len()) == pattern
}

/// `pattern` stands nowhere in `text`.
pub open spec fn spec_occurs_nowhere(text: Seq<char>, pattern: Seq<char>) -> bool {
    forall|at: int| !spec_occurs_at(text, pattern, at)
}

/// `pattern` stands in `text` at `at` and nowhere else.
pub open spec fn spec_occurs_only_at(text: Seq<char>, pattern: Seq<char>, at: int) -> bool {
    &&& spec_occurs_at(text, pattern, at)
    &&& forall|other: int| other != at ==> !spec_occurs_at(text, pattern, other)
}

/// `pattern` stands in `text` at two places or more.
pub open spec fn spec_occurs_twice(text: Seq<char>, pattern: Seq<char>) -> bool {
    exists|first: int, second: int|
        first < second && #[trigger] spec_occurs_at(text, pattern, first)
            && #[trigger] spec_occurs_at(text, pattern, second)
}

/// Where a pattern stands in a text.
pub enum Occurrence {
    Nowhere,
    Once(usize),
    Repeatedly,
}

fn occurs_at(text: &Vec<char>, pattern: &Vec<char>, at: usize) -> (found: bool)
    requires
        at + pattern.len() <= text.len(),
    ensures
        found == spec_occurs_at(text@, pattern@, at as int),
{
    let mut k: usize = 0;
    while k < pattern.len()
        invariant
            k <= pattern.len(),
            at + pattern.len() <= text.len(),
            forall|j: int| 0 <= j < k ==> text[at + j] == pattern[j],
        decreases pattern.len() - k,
    {
        if text[at + k] != pattern[k] {
            assert(text@.subrange(at as int, at + pattern.len())[k as int] == text[at + k]);
            return false;
        }
        k += 1;
    }
    assert(text@.subrange(at as int, at + pattern.len()) =~= pattern@);
    true
}

/// Finds out whether `pattern` stands in `text` nowhere, once or more
/// often.
pub fn find_occurrence(text: &Vec<char>, pattern: &Vec<char>) -> (occurrence: Occurrence)
    ensures
        match occurrence {
            Occurrence::Nowhere => spec_occurs_nowhere(text@, pattern@),
            Occurrence::Once(at) => spec_occurs_only_at(text@, pattern@, at as int),
            Occurrence::Repeatedly => spec_occurs_twice(text@, pattern@),
        },
{
    if pattern.len() > text.len() {
        return Occurrence::Nowhere;
    }
    if pattern.len() == 0 {
        assert(text@.subrange(0, 0) =~= pattern@);
        if text.len() == 0 {
            return Occurrence::Once(0);
        }
        assert(text@.subrange(1, 1) =~= pattern@);
        assert(spec_occurs_at(text@, pattern@, 0) && spec_occurs_at(text@, pattern@, 1));
        return Occurrence::Repeatedly;
    }
    let last = text.len() - pattern.len();
    let mut first: Option<usize> = None;
    let mut at: usize = 0;
    while at <= last
        invariant
            at <= last + 1,
            last == text.len() - pattern.len(),
            pattern.len() > 0,
            match first {
                None => forall|j: int| 0 <= j < at ==> !spec_occurs_at(text@, pattern@, j),
                Some(found) => {
                    &&& found < at
                    &&& spec_occurs_at(text@, pattern@, found as int)
                    &&& forall|j: int|
                        0 <= j < at && j != found ==> !spec_occurs_at(text@, pattern@, j)
                },
            },
        decreases last + 1 - at,
    {
        if occurs_at(text, pattern, at) {
            match first {
                None => {
                    first = Some(at);
                },
                Some(found) => {
                    assert(spec_occurs_at(text@, pattern@, found as int) && spec_occurs_at(
                        text@,
                        pattern@,
                        at as int,
                    ));
                    return Occurrence::Repeatedly;
                },
            }
        }
        at += 1;
    }
    match first {
        None => Occurrence::Nowhere,
        Some(found) => Occurrence::Once(found),
    }
}

/// Header and shader text of a file, as they stand in it.
#[derive(Debug)]
pub struct ShaderFileParts {
    pub header_source: String,
    pub source_text: String,
}

/// What taking `source` apart comes to: an error where the separator does
/// not stand in it exactly once, else what stands before the separator and
/// what stands after it.
pub open spec fn spec_is_split(
    parts: Result<ShaderFileParts, ShaderFileError>,
    source: Seq<char>,
) -> bool {
    match parts {
        Ok(parts) => exists|at: int|
            {
                &&& #[trigger] spec_occurs_only_at(source, spec_separator(), at)
                &&& parts.header_source@ == source.subrange(0, at)
                &&& parts.source_text@ == source.subrange(
                    at + spec_separator().len(),
                    source.len() as int,
                )
            },
        Err(ShaderFileError::MissingSeparator) => spec_occurs_nowhere(source, spec_separator()),
        Err(ShaderFileError::MultipleSeparators) => spec_occurs_twice(source, spec_separator()),
        Err(ShaderFileError::Header(_)) => false,
    }
}

/// The import stubs, each followed by a line end, in order.
pub open spec fn spec_stub_lines(stubs: Seq<String>, newline: Seq<char>) -> Seq<char>
    decreases stubs.len(),
{
    if stubs.len() == 0 {
        Seq::empty()
    } else {
        spec_stub_lines(stubs.drop_last(), newline) + stubs.last()@ + newline
    }
}

/// What joining import stubs and shader text comes to: every stub
/// followed by a line end, in order, then the text.
pub open spec fn spec_compiled(stubs: Seq<String>, newline: Seq<char>, text: Seq<char>) -> Seq<char> {
    spec_stub_lines(stubs, newline) + text
}

impl MeshShaderFile {
    /// Takes a file apart at its separator. Nothing is read of the header
    /// here.
    pub fn split(source: &str) -> (parts: Result<ShaderFileParts, ShaderFileError>)
        ensures
            spec_is_split(parts, source@),
    {
        let text = characters(source);
        let separator = characters("#END CUBENSIS");
        match find_occurrence(&text, &separator) {
            Occurrence::Nowhere => Err(ShaderFileError::MissingSeparator),
            Occurrence::Repeatedly => Err(ShaderFileError::MultipleSeparators),
            Occurrence::Once(at) => {
                assert(spec_occurs_at(text@, separator@, at as int));
                let separator_len = separator.len();
                let text_len = text.len();
                assert(at + separator_len <= text_len);
                let text_start = at + separator_len;
                let header_source = source.substring_char(0, at).to_owned();
                let source_text = source.substring_char(text_start, text_len).to_owned();
                let parts = ShaderFileParts { header_source, source_text };
                assert(spec_occurs_only_at(source@, spec_separator(), at as int));
                Ok(parts)
            },
        }
    }

    /// A mesh shader file from its text and from its header as the caller
    /// has read it from the part before the separator. A text that cannot
    /// be taken apart fails first; then a header that could not be read.
    pub fn parse(source: &str, header: Result<MeshShaderMetadata, String>) -> (file: Result<
        Self,
        ShaderFileError,
    >)
        ensures
            match file {
                Ok(file) => {
                    &&& header is Ok
                    &&& file.header == header->Ok_0
                    &&& exists|at: int|
                        {
                            &&& #[trigger] spec_occurs_only_at(source@, spec_separator(), at)
                            &&& file.source_text@ == source@.subrange(
                                at + spec_separator().len(),
                                source@.len() as int,
                            )
                        }
                },
                Err(ShaderFileError::MissingSeparator) => spec_occurs_nowhere(
                    source@,
                    spec_separator(),
                ),
                Err(ShaderFileError::MultipleSeparators) => spec_occurs_twice(
                    source@,
                    spec_separator(),
                ),
                Err(ShaderFileError::Header(message)) => {
                    &&& header is Err
                    &&& message == header->Err_0
                    &&& exists|at: int| #[trigger] spec_occurs_only_at(source@, spec_separator(), at)
                },
            },
    {
        match Self::split(source) {
            Err(error) => {
                match error {
                    ShaderFileError::Header(_) => {
                        assert(false);
                    },
                    _ => {},
                }
                Err(error)
            },
            Ok(parts) => match header {
                Ok(header) => Ok(MeshShaderFile { header, source_text: parts.source_text }),
                Err(message) => Err(ShaderFileError::Header(message)),
            },
        }
    }

    /// The shader text with the text of its imports before it: every
    /// import stub followed by `newline`, in order, then the text of the
    /// file.
    pub fn compile(&self, import_stubs: &Vec<String>, newline: &str) -> (output: String)
        ensures
            output@ == spec_compiled(import_stubs@, newline@, self.source_text@),
    {
        let mut output = String::new();
        let mut i: usize = 0;
        while i < import_stubs.len()
            invariant
                i <= import_stubs.len(),
                output@ == spec_stub_lines(import_stubs@.subrange(0, i as int), newline@),
            decreases import_stubs.len() - i,
        {
            proof {
                assert(import_stubs@.subrange(0, i + 1).drop_last() =~= import_stubs@.subrange(
                    0,
                    i as int,
                ));
                assert(import_stubs@.subrange(0, i + 1).last() == import_stubs[i as int]);
            }
            output.append(import_stubs[i].as_str());
            output.append(newline);
            i += 1;
        }
        assert(import_stubs@.subrange(0, i as int) =~= import_stubs@);
        output.append(self.source_text.as_str());
        output
    }
}

} // verus!
