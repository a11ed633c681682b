//! Extraction of printable-ASCII runs from a byte buffer: each run longer
//! than a threshold is recorded together with the offset of the byte that
//! ended it.

use vstd::prelude::*;

verus! {

/// A recorded printable run: the offset of the byte that terminated the
/// run, and the run's text.
#[derive(Debug)]
pub struct AsciiReference {
    pub offset: u32,
    pub ascii: String,
}

/// The model of a recorded run.
pub struct AsciiRefModel {
    pub offset: u32,
    pub ascii: Seq<char>,
}

impl View for AsciiReference {
    type V = AsciiRefModel;

    open spec fn view(&self) -> AsciiRefModel {
        AsciiRefModel { offset: self.offset, ascii: self.ascii@ }
    }
}

impl AsciiReference {
    pub fn new() -> (r: AsciiReference)
        ensures
            r@.offset == 0,
            r@.ascii == Seq::<char>::empty(),
    {
        AsciiReference { offset: 0, ascii: String::new() }
    }

    pub fn from(offset: u32, ascii: String) -> (r: AsciiReference)
        ensures
            r@.offset == offset,
            r@.ascii == ascii@,
    {
        AsciiReference { offset, ascii }
    }
}

pub type AsciiReferences = Vec<AsciiReference>;

/// Whether a byte is a printable ASCII character.
pub open spec fn is_printable(b: u8) -> bool {
    32 <= b <= 126
}

/// The scan state after the first `i` bytes: the runs recorded so far and
/// the printable run still open.  A printable byte extends the open run;
/// any other byte closes it, recording it (keyed by the closing byte's
/// offset) only when it is longer than `min_chars`.
pub open spec fn spec_scan(bytes: Seq<u8>, min_chars: u8, i: int) -> (Seq<AsciiRefModel>, Seq<
    char,
>)
    recommends
        0 <= i <= bytes.len(),
        bytes.len() <= u32::MAX,
    decreases i,
{
    if i <= 0 {
        (Seq::empty(), Seq::empty())
    } else {
        let (refs, run) = spec_scan(bytes, min_chars, i - 1);
        let b = bytes[i - 1];
        if is_printable(b) {
            (refs, run.push(b as char))
        } else if run.len() > min_chars {
            (refs.push(AsciiRefModel { offset: (i - 1) as u32, ascii: run }), Seq::empty())
        } else {
            (refs, Seq::empty())
        }
    }
}

/// The runs recorded over a whole buffer.  A run still open at the end of
/// the buffer is not recorded.
pub open spec fn spec_ascii_references(bytes: Seq<u8>, min_chars: u8) -> Seq<AsciiRefModel> {
    spec_scan(bytes, min_chars, bytes.len() as int).0
}

/// The models of a sequence of recorded runs.
pub open spec fn refs_model(s: Seq<AsciiReference>) -> Seq<AsciiRefModel> {
    s.map_values(|r: AsciiReference| r@)
}

/// Relies on String::push: appends exactly the given character.
#[verifier::external_body]
fn push_char(s: &mut String, c: char)
    ensures
        final(s)@ == old(s)@.push(c),
{
    s.push(c);
}

/// Collects every printable-ASCII run of the buffer longer than
/// `min_chars`, each keyed by the offset of the byte that ended it.
pub fn extract_ascii_references(bytes: &Vec<u8>, min_chars: u8) -> (r: AsciiReferences)
    requires
        bytes@.len() <= u32::MAX,
    ensures
        refs_model(r@) == spec_ascii_references(bytes@, min_chars),
{
    let mut offset: u32 = 0;
    let mut possible_str: String = String::new();
    let mut run_len: usize = 0;
    let mut refs: AsciiReferences = AsciiReferences::new();

    let mut idx: usize = 0;
    while idx < bytes.len()
        invariant
            bytes@.len() <= u32::MAX,
            idx <= bytes@.len(),
            offset == idx,
            run_len == possible_str@.len(),
            run_len <= idx,
            refs_model(refs@) == spec_scan(bytes@, min_chars, idx as int).0,
            possible_str@ == spec_scan(bytes@, min_chars, idx as int).1,
        decreases bytes@.len() - idx,
    {
        let byte = bytes[idx];
        if byte >= 32 && byte <= 126 {
            push_char(&mut possible_str, byte as char);
            run_len = run_len + 1;
        } else {
            if run_len > min_chars as usize {
                refs.push(AsciiReference::from(offset, possible_str));
                proof {
                    assert(refs_model(refs@) =~= spec_scan(bytes@, min_chars, idx + 1).0);
                }
            }
            possible_str = String::new();
            run_len = 0;
        }
        offset = offset + 1;
        idx = idx + 1;
    }
    refs
}

} // verus!
