//! Classification of file parameters: inline-by-reference or binary upload.

use vstd::prelude::*;

verus! {

/// A file parameter of an outbound call, supplied one of three ways: as a
/// URL the remote side fetches itself, as an identifier of a file already
/// known to the remote side, or as raw bytes that must travel in a
/// multipart upload.
pub enum InputFile {
    /// A URL reference, inlined into the request body as a plain string.
    Url(String),
    /// An identifier of an already-uploaded file, inlined as a plain string.
    FileId(String),
    /// Raw bytes; the only variant that requires multipart transport.
    Memory(Vec<u8>),
}

/// True exactly on the raw-bytes variant: the flag that gates which
/// transport the dispatcher must use.
pub open spec fn needs_upload_spec(f: InputFile) -> bool {
    f matches InputFile::Memory(_)
}

impl InputFile {
    /// Whether sending this file requires a multipart upload. False for the
    /// URL and file-id variants, which are inlined as plain strings.
    pub fn needs_attach(&self) -> (r: bool)
        ensures
            r == needs_upload_spec(*self),
    {
        match self {
            InputFile::Memory(_) => true,
            InputFile::Url(_) => false,
            InputFile::FileId(_) => false,
        }
    }
}

/// The upload flag depends only on the variant: it is true on raw bytes and
/// false on both by-reference variants, for every constructed value.
pub proof fn lemma_needs_upload_classifies(f: InputFile)
    ensures
        needs_upload_spec(f) <==> f matches InputFile::Memory(_),
        f matches InputFile::Url(_) ==> !needs_upload_spec(f),
        f matches InputFile::FileId(_) ==> !needs_upload_spec(f),
{
}

/// Classification is a pure function of its input: two classifications of
/// the same value always agree, however often the question is asked.
pub proof fn lemma_needs_upload_idempotent(f: InputFile, r1: bool, r2: bool)
    requires
        r1 == needs_upload_spec(f),
        r2 == needs_upload_spec(f),
    ensures
        r1 == r2,
{
}

} // verus!
