//! Text arguments in the form the native layer takes them: the bytes of the
//! text, closed by one zero byte. A text that holds a zero byte of its own
//! cannot be handed over and is turned away before any call is made.

use vstd::prelude::*;
use vstd::slice::slice_to_vec;
use vstd::string::StringSliceAdditionalSpecFns;
use vstd::utf8::{encode_scalar, encode_utf8, has_width_1_encoding};

verus! {

/// Why a text cannot be handed to the native layer: it holds a zero byte.
#[derive(Debug, Clone, Copy, PartialEq, Eq, Structural)]
pub struct NulError {
    /// Where the first zero byte stands among the bytes of the text.
    pub position: usize,
}

/// Why a list of text arguments cannot be handed to the native layer.
#[derive(Debug, Clone, Copy, PartialEq, Eq, Structural)]
pub struct MarshalError {
    /// Which argument is at fault: the first one that holds a zero byte.
    pub argument: usize,
    /// Where the first zero byte stands among the bytes of that argument.
    pub position: usize,
}

/// Whether `bytes` holds the terminator somewhere.
pub open spec fn has_nul(bytes: Seq<u8>) -> bool {
    exists|i: int| 0 <= i < bytes.len() && bytes[i] == 0u8
}

/// Whether `chars` holds the terminator character somewhere.
pub open spec fn has_nul_char(chars: Seq<char>) -> bool {
    exists|i: int| 0 <= i < chars.len() && chars[i] as u32 == 0u32
}

/// Whether the first terminator in `bytes` stands at `position`.
pub open spec fn first_nul_at(bytes: Seq<u8>, position: int) -> bool {
    &&& 0 <= position < bytes.len()
    &&& bytes[position] == 0u8
    &&& forall|j: int| 0 <= j < position ==> bytes[j] != 0u8
}

/// The foreign form of a text with the bytes `bytes`.
pub open spec fn terminated(bytes: Seq<u8>) -> Seq<u8> {
    bytes.push(0u8)
}

/// Whether `all` holds the foreign forms of the first `n` of `texts`, in
/// their order, and nothing else.
pub open spec fn terminated_all(texts: Seq<&str>, n: int, all: Seq<Vec<u8>>) -> bool {
    &&& all.len() == n
    &&& forall|k: int| 0 <= k < n ==> (#[trigger] all[k])@ == terminated(texts[k].spec_bytes())
}

/// Whether the first of `texts` to hold a terminator is the one at `argument`.
pub open spec fn first_bad_argument(texts: Seq<&str>, argument: int) -> bool {
    &&& 0 <= argument < texts.len()
    &&& has_nul(texts[argument].spec_bytes())
    &&& forall|k: int| 0 <= k < argument ==> !has_nul(#[trigger] texts[k].spec_bytes())
}

/// Where the first zero byte of `bytes` stands, if there is one.
pub fn find_nul(bytes: &[u8]) -> (found: Option<usize>)
    ensures
        match found {
            Some(position) => first_nul_at(bytes@, position as int),
            None => !has_nul(bytes@),
        },
{
    let mut i: usize = 0;
    while i < bytes.len()
        invariant
            i <= bytes@.len(),
            forall|j: int| 0 <= j < i ==> bytes@[j] != 0u8,
        decreases bytes@.len() - i,
    {
        if bytes[i] == 0 {
            return Some(i);
        }
        i += 1;
    }
    None
}

/// The foreign form of `text`: its bytes and one closing zero byte. A text
/// that holds the terminator character is refused, with the place of the
/// first zero byte.
pub fn c_str(text: &str) -> (foreign: Result<Vec<u8>, NulError>)
    ensures
        foreign is Err <==> has_nul_char(text@),
        match foreign {
            Ok(bytes) => !has_nul(text.spec_bytes()) && bytes@ == terminated(text.spec_bytes()),
            Err(e) => first_nul_at(text.spec_bytes(), e.position as int),
        },
{
    proof {
        lemma_nul_byte_iff_nul_char(text@);
    }
    let bytes = text.as_bytes();
    match find_nul(bytes) {
        Some(position) => Err(NulError { position }),
        None => {
            let mut out = slice_to_vec(bytes);
            out.push(0u8);
            Ok(out)
        },
    }
}

/// The foreign forms of all of `texts`, in their order, or the first text
/// that holds a zero byte. Nothing is handed over unless every text passes.
pub fn marshal(texts: &Vec<&str>) -> (foreign: Result<Vec<Vec<u8>>, MarshalError>)
    ensures
        match foreign {
            Ok(all) => {
                &&& forall|k: int| 0 <= k < texts@.len() ==> !has_nul(#[trigger] texts@[k].spec_bytes())
                &&& terminated_all(texts@, texts@.len() as int, all@)
            },
            Err(e) => {
                &&& first_bad_argument(texts@, e.argument as int)
                &&& first_nul_at(texts@[e.argument as int].spec_bytes(), e.position as int)
            },
        },
{
    let mut all: Vec<Vec<u8>> = Vec::new();
    let mut k: usize = 0;
    while k < texts.len()
        invariant
            k <= texts@.len(),
            forall|j: int| 0 <= j < k ==> !has_nul(#[trigger] texts@[j].spec_bytes()),
            terminated_all(texts@, k as int, all@),
        decreases texts@.len() - k,
    {
        match c_str(texts[k]) {
            Ok(bytes) => {
                all.push(bytes);
            },
            Err(e) => {
                return Err(MarshalError { argument: k, position: e.position });
            },
        }
        k += 1;
    }
    Ok(all)
}

/// The foreign form of a clean text ends in the only terminator it has, and
/// what stands before the terminator is the text.
pub proof fn lemma_terminated_ends_in_only_nul(bytes: Seq<u8>)
    requires
        !has_nul(bytes),
    ensures
        first_nul_at(terminated(bytes), bytes.len() as int),
        terminated(bytes).len() == bytes.len() + 1,
        terminated(bytes).drop_last() == bytes,
{
    assert(terminated(bytes).drop_last() =~= bytes);
}

/// A position of a first terminator shows that there is a terminator, and
/// there is only one such position.
pub proof fn lemma_first_nul_unique(bytes: Seq<u8>, p: int, q: int)
    requires
        first_nul_at(bytes, p),
        first_nul_at(bytes, q),
    ensures
        has_nul(bytes),
        p == q,
{
}

proof fn lemma_one_byte(s: u32)
    by (bit_vector)
    requires
        s <= 0x7F,
    ensures
        (s & 0x7F) as u8 == 0u8 <==> s == 0,
{
}

proof fn lemma_marked_bytes_are_not_zero(s: u32)
    by (bit_vector)
    ensures
        0xC0u8 | ((s >> 6) & 0x1F) as u8 != 0u8,
        0xE0u8 | ((s >> 12) & 0x0F) as u8 != 0u8,
        0xF0u8 | ((s >> 18) & 0x7) as u8 != 0u8,
        0x80u8 | (s & 0x3F) as u8 != 0u8,
        0x80u8 | ((s >> 6) & 0x3F) as u8 != 0u8,
        0x80u8 | ((s >> 12) & 0x3F) as u8 != 0u8,
{
}

/// The bytes of one character hold a zero byte exactly when it is the
/// terminator character.
proof fn lemma_scalar_nul(s: u32)
    ensures
        has_nul(encode_scalar(s)) <==> s == 0,
{
    let bytes = encode_scalar(s);
    lemma_marked_bytes_are_not_zero(s);
    if has_width_1_encoding(s) {
        lemma_one_byte(s);
        if s == 0 {
            assert(bytes[0] == 0u8);
        }
    }
    if has_nul(bytes) {
        let i = choose|i: int| 0 <= i < bytes.len() && bytes[i] == 0u8;
        assert(bytes[i] == 0u8);
    }
}

proof fn lemma_has_nul_concat(a: Seq<u8>, b: Seq<u8>)
    ensures
        has_nul(a + b) <==> has_nul(a) || has_nul(b),
{
    let ab = a + b;
    if has_nul(a) {
        let i = choose|i: int| 0 <= i < a.len() && a[i] == 0u8;
        assert(ab[i] == 0u8);
    }
    if has_nul(b) {
        let i = choose|i: int| 0 <= i < b.len() && b[i] == 0u8;
        assert(ab[a.len() + i] == 0u8);
    }
    if has_nul(ab) {
        let i = choose|i: int| 0 <= i < ab.len() && ab[i] == 0u8;
        if i < a.len() {
            assert(a[i] == 0u8);
        } else {
            assert(b[i - a.len()] == 0u8);
        }
    }
}

/// The bytes of a text hold a zero byte exactly when the text holds the
/// terminator character: no other character has a zero byte in its encoding.
pub proof fn lemma_nul_byte_iff_nul_char(chars: Seq<char>)
    ensures
        has_nul(encode_utf8(chars)) <==> has_nul_char(chars),
    decreases chars.len(),
{
    if chars.len() == 0 {
        assert(encode_utf8(chars) =~= Seq::<u8>::empty());
    } else {
        let rest = chars.drop_first();
        lemma_nul_byte_iff_nul_char(rest);
        lemma_scalar_nul(chars[0] as u32);
        lemma_has_nul_concat(encode_scalar(chars[0] as u32), encode_utf8(rest));
        if has_nul_char(rest) {
            let i = choose|i: int| 0 <= i < rest.len() && rest[i] as u32 == 0u32;
            assert(chars[i + 1] as u32 == 0u32);
        }
        if has_nul_char(chars) {
            let i = choose|i: int| 0 <= i < chars.len() && chars[i] as u32 == 0u32;
            if i > 0 {
                assert(rest[i - 1] as u32 == 0u32);
            }
        }
    }
}

} // verus!
