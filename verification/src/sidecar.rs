//! The size sidecar codec. A sidecar file stores the dimensions of one
//! source image as the canonical JSON text `{"w":W,"h":H}` with `W` and
//! `H` decimal. The parser accepts exactly that canonical form; anything
//! else counts as a cache miss for the caller, never as an error.

use vstd::prelude::*;
use vstd::string::StrSliceExecFns;
use vstd::string::StringExecFns;

use crate::digits::dec_str;
use crate::digits::dec_val;
use crate::digits::is_canonical_digits;
use crate::digits::is_digit;
use crate::digits::lemma_dec_str_canonical;
use crate::digits::lemma_dec_str_val;
use crate::digits::parse_u32_dec;
use crate::digits::u32_to_dec;
use crate::resizer::Size;

verus! {

/// The canonical sidecar text for `s`.
pub open spec fn sidecar_json_spec(s: Size) -> Seq<char> {
    "{\"w\":"@ + dec_str(s.w as nat) + ",\"h\":"@ + dec_str(s.h as nat) + "}"@
}

/// What the sidecar parser accepts: the canonical text, split at its
/// first comma.
pub open spec fn parse_sidecar_spec(s: Seq<char>) -> Option<Size> {
    match s.index_of_first(',') {
        Some(ci) => if ci >= 5 && s.len() >= ci + 7 {
            let a = s.subrange(5, ci);
            let b = s.subrange(ci + 5, s.len() - 1);
            if s.subrange(0, 5) == "{\"w\":"@ && s.subrange(ci, ci + 5) == ",\"h\":"@ && s.last()
                == '}' && is_canonical_digits(a) && dec_val(a) <= u32::MAX && is_canonical_digits(
            b) && dec_val(b) <= u32::MAX {
                Some(Size { w: dec_val(a) as u32, h: dec_val(b) as u32 })
            } else {
                None
            }
        } else {
            None
        },
        None => None,
    }
}

/// Render `s` as canonical sidecar text.
pub fn serialize_size(s: Size) -> (r: String)
    ensures
        r@ == sidecar_json_spec(s),
{
    let mut out: String = String::new();
    out.append("{\"w\":");
    let w: String = u32_to_dec(s.w);
    out.append(w.as_str());
    out.append(",\"h\":");
    let h: String = u32_to_dec(s.h);
    out.append(h.as_str());
    out.append("}");
    out
}

/// Parse canonical sidecar text; `None` for anything else.
pub fn parse_size(contents: &str) -> (r: Option<Size>)
    ensures
        r == parse_sidecar_spec(contents@),
{
    let n: usize = contents.unicode_len();
    let ci: usize = match crate::strutil::first_index_of(contents, ',') {
        Some(i) => i,
        None => {
            return None;
        },
    };
    proof {
        contents@.index_of_first_ensures(',');
    }
    if ci < 5 || n < 7 || n - 7 < ci {
        return None;
    }
    let head: &str = contents.substring_char(0, 5);
    if !crate::strutil::str_eq(head, "{\"w\":") {
        return None;
    }
    let mid: &str = contents.substring_char(ci, ci + 5);
    if !crate::strutil::str_eq(mid, ",\"h\":") {
        return None;
    }
    if contents.get_char(n - 1) != '}' {
        return None;
    }
    let a: &str = contents.substring_char(5, ci);
    let b: &str = contents.substring_char(ci + 5, n - 1);
    let w: u32 = match parse_u32_dec(a) {
        Some(v) => v,
        None => {
            return None;
        },
    };
    let h: u32 = match parse_u32_dec(b) {
        Some(v) => v,
        None => {
            return None;
        },
    };
    Some(Size { w: w, h: h })
}

/// Parsing a rendered sidecar gives the size back: the codec round trip.
pub proof fn lemma_sidecar_round_trip(s: Size)
    ensures
        parse_sidecar_spec(sidecar_json_spec(s)) == Some(s),
{
    let head = "{\"w\":"@;
    let mid = ",\"h\":"@;
    let tail = "}"@;
    let a = dec_str(s.w as nat);
    let b = dec_str(s.h as nat);
    let full = sidecar_json_spec(s);
    reveal_strlit("{\"w\":");
    reveal_strlit(",\"h\":");
    reveal_strlit("}");
    assert(head.len() == 5);
    assert(mid.len() == 5);
    assert(tail.len() == 1);
    lemma_dec_str_canonical(s.w as nat);
    lemma_dec_str_canonical(s.h as nat);
    lemma_dec_str_val(s.w as nat);
    lemma_dec_str_val(s.h as nat);
    let ci = 5 + a.len() as int;
    assert(full.len() == 11 + a.len() + b.len());
    assert(full[ci] == ',');
    assert forall|j: int| 0 <= j < ci implies full[j] != ',' by {
        if j < 5 {
            assert(full[j] == head[j]);
        } else {
            assert(full[j] == a[j - 5]);
            assert(is_digit(a[j - 5]));
        }
    }
    full.index_of_first_ensures(',');
    assert(full.contains(','));
    let idx = full.index_of_first(',').unwrap();
    assert(idx <= ci);
    assert(idx >= ci);
    assert(full.index_of_first(',') == Some(ci));
    assert(full.subrange(0, 5) =~= head);
    assert(full.subrange(5, ci) =~= a);
    assert(full.subrange(ci, ci + 5) =~= mid);
    assert(full.subrange(ci + 5, full.len() - 1) =~= b);
    assert(full.last() == '}');
    assert(parse_sidecar_spec(full) == Some(Size { w: dec_val(a) as u32, h: dec_val(b) as u32 }));
}

} // verus!
