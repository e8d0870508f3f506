//! Registration-code resolution and the configurable slate defaults.
//!
//! The code is the trailing numeral of a file name's stem; the lookup table
//! maps codes to registration strings, with a fixed offset fallback for the
//! upper numbering range.

use crate::numstr::parse_u32;
use crate::numstr::spec_is_u32_numeral;
use crate::numstr::spec_u32_numeral_val;
use crate::strutil::find_last;
use crate::strutil::spec_last_index;
use std::collections::HashMap;
use vstd::prelude::*;

verus! {

broadcast use vstd::std_specs::hash::group_hash_axioms;

/// Codes at most this value are never retried at an offset.
pub const CODE_OFFSET_THRESHOLD: u32 = 50;

/// The numbering-scheme offset applied on retry.
pub const CODE_OFFSET: u32 = 40;

/// Fixed slate fields loaded from the defaults file.
#[derive(Debug, Clone)]
pub struct Defaults {
    pub produto: String,
    pub produtora: String,
    pub agencia: String,
    pub anunciante: String,
    pub diretor: String,
    pub output: String,
}

/// The effective configuration directory: the base directory itself, or the
/// client's subdirectory when a client is named.
pub fn resolve_config_path(config_dir: &str, client: Option<&str>) -> (r: String)
    ensures
        client matches Some(name) ==> r@ == config_dir@ + "/"@ + name@,
        client is None ==> r@ == config_dir@,
{
    match client {
        Some(name) => {
            let mut s = String::from_str(config_dir);
            s.append("/");
            s.append(name);
            s
        },
        None => String::from_str(config_dir),
    }
}

/// The file name's stem: what follows the last `'/'`, with the extension
/// after its last `'.'` removed unless that dot is the leading character.
pub open spec fn spec_file_stem(s: Seq<char>) -> Seq<char> {
    let name = {
        let k = spec_last_index(s, '/');
        if k >= 0 {
            s.subrange(k + 1, s.len() as int)
        } else {
            s
        }
    };
    let j = spec_last_index(name, '.');
    if j > 0 {
        name.subrange(0, j)
    } else {
        name
    }
}

/// The last `'_'`-separated segment of the stem (the whole stem when it has
/// no underscore).
pub open spec fn spec_code_segment(s: Seq<char>) -> Seq<char> {
    let stem = spec_file_stem(s);
    let u = spec_last_index(stem, '_');
    if u >= 0 {
        stem.subrange(u + 1, stem.len() as int)
    } else {
        stem
    }
}

/// The numeric code a file name carries, when its trailing segment is a
/// numeral.
pub open spec fn spec_extract_code(s: Seq<char>) -> Option<u32> {
    if spec_is_u32_numeral(spec_code_segment(s)) {
        Some(spec_u32_numeral_val(spec_code_segment(s)) as u32)
    } else {
        None
    }
}

/// Extracts the numeric code from a file name: the segment after the last
/// `'_'` of the stem, parsed as an unsigned integer.
pub fn extract_code_from_filename(filename: &str) -> (r: Option<u32>)
    ensures
        r == spec_extract_code(filename@),
{
    let len = filename.unicode_len();
    let name = match find_last(filename, '/') {
        Some(k) => {
            proof {
                crate::strutil::lemma_last_index_properties(filename@, '/');
            }
            filename.substring_char(k + 1, len)
        },
        None => filename,
    };
    let stem = match find_last(name, '.') {
        Some(j) => {
            proof {
                crate::strutil::lemma_last_index_properties(name@, '.');
            }
            if j > 0 {
                name.substring_char(0, j)
            } else {
                name
            }
        },
        None => name,
    };
    let slen = stem.unicode_len();
    let seg = match find_last(stem, '_') {
        Some(u) => {
            proof {
                crate::strutil::lemma_last_index_properties(stem@, '_');
            }
            stem.substring_char(u + 1, slen)
        },
        None => stem,
    };
    proof {
        assert(seg@ == spec_code_segment(filename@));
    }
    parse_u32(seg)
}

/// What the lookup table resolves a code to: its own entry when present,
/// else the entry at the fixed offset below it when the code is above the
/// threshold, else nothing.
pub open spec fn spec_lookup(code: u32, m: Map<u32, String>) -> Option<String> {
    if m.contains_key(code) {
        Some(m[code])
    } else if code > CODE_OFFSET_THRESHOLD && m.contains_key((code - CODE_OFFSET) as u32) {
        Some(m[(code - CODE_OFFSET) as u32])
    } else {
        None
    }
}

/// Resolves a registration code against the table, retrying codes above the
/// threshold at the documented offset.
pub fn lookup_registro(code: u32, codes: &HashMap<u32, String>) -> (r: Option<String>)
    ensures
        r == spec_lookup(code, codes@),
{
    if let Some(reg) = codes.get(&code) {
        return Some(reg.clone());
    }
    if code > CODE_OFFSET_THRESHOLD {
        return match codes.get(&(code - CODE_OFFSET)) {
            Some(reg) => Some(reg.clone()),
            None => None,
        };
    }
    None
}

/// Resolution law: a code at most the threshold resolves only directly and
/// is never retried at the offset; a code above it falls back to the entry
/// at `code - 40` exactly when the code itself is absent.
pub proof fn lemma_lookup_offset_rule(code: u32, m: Map<u32, String>)
    ensures
        code <= CODE_OFFSET_THRESHOLD ==> spec_lookup(code, m) == if m.contains_key(code) {
            Some(m[code])
        } else {
            None::<String>
        },
        code > CODE_OFFSET_THRESHOLD && m.contains_key(code) ==> spec_lookup(code, m) == Some(
            m[code],
        ),
        code > CODE_OFFSET_THRESHOLD && !m.contains_key(code) ==> spec_lookup(code, m)
            == if m.contains_key((code - CODE_OFFSET) as u32) {
            Some(m[(code - CODE_OFFSET) as u32])
        } else {
            None::<String>
        },
{
}

/// The table the raw string-keyed pairs denote: entries whose keys are
/// numerals, later pairs overriding earlier ones.
pub open spec fn spec_codes_map(pairs: Seq<(String, String)>) -> Map<u32, String>
    decreases pairs.len(),
{
    if pairs.len() == 0 {
        Map::empty()
    } else {
        let prev = spec_codes_map(pairs.drop_last());
        let kv = pairs.last();
        if spec_is_u32_numeral(kv.0@) {
            prev.insert(spec_u32_numeral_val(kv.0@) as u32, kv.1)
        } else {
            prev
        }
    }
}

/// Builds the code table from raw string-keyed pairs, keeping exactly the
/// entries whose keys parse as unsigned integers.
pub fn codes_from_pairs(pairs: &Vec<(String, String)>) -> (r: HashMap<u32, String>)
    ensures
        r@ == spec_codes_map(pairs@),
{
    let mut m: HashMap<u32, String> = HashMap::new();
    let mut i: usize = 0;
    while i < pairs.len()
        invariant
            0 <= i <= pairs.len(),
            m@ == spec_codes_map(pairs@.subrange(0, i as int)),
        decreases pairs.len() - i,
    {
        proof {
            assert(pairs@.subrange(0, i + 1).drop_last() =~= pairs@.subrange(0, i as int));
            assert(pairs@.subrange(0, i + 1).last() == pairs@[i as int]);
        }
        match parse_u32(pairs[i].0.as_str()) {
            Some(n) => {
                m.insert(n, pairs[i].1.clone());
            },
            None => {
            },
        }
        i += 1;
    }
    proof {
        assert(pairs@.subrange(0, pairs@.len() as int) =~= pairs@);
    }
    m
}

} // verus!
