//! File-type filters and the pattern syntax the native dialog expects:
//! one `*.`-prefixed pattern per extension, joined with `;`.

use vstd::prelude::*;
use vstd::string::StringExecFns;
use crate::wide::{utf16, encode_utf16_nul};

verus! {

/// One file filter: a display name and the extensions it admits.
pub struct Filter {
    pub name: String,
    pub extensions: Vec<String>,
}

/// The native pattern for one extension: `*.` followed by the extension.
pub open spec fn pattern_of(ext: Seq<char>) -> Seq<char> {
    seq!['*', '.'] + ext
}

/// The native pattern list of a filter: the patterns of its extensions,
/// joined with `;`.
pub open spec fn pattern_list(exts: Seq<Seq<char>>) -> Seq<char>
    decreases exts.len(),
{
    if exts.len() == 0 {
        Seq::empty()
    } else if exts.len() == 1 {
        pattern_of(exts[0])
    } else {
        pattern_of(exts[0]) + seq![';'] + pattern_list(exts.drop_first())
    }
}

/// Appending an extension appends `;` and its pattern, except to an empty
/// list.
proof fn lemma_pattern_list_push(exts: Seq<Seq<char>>, e: Seq<char>)
    ensures
        exts.len() == 0 ==> pattern_list(exts.push(e)) == pattern_of(e),
        exts.len() > 0 ==> pattern_list(exts.push(e)) == pattern_list(exts) + seq![';']
            + pattern_of(e),
    decreases exts.len(),
{
    if exts.len() == 0 {
        assert(exts.push(e)[0] == e);
    } else if exts.len() == 1 {
        assert(exts.push(e)[0] == exts[0]);
        assert(exts.push(e).drop_first() =~= seq![e]);
        assert(pattern_list(seq![e]) == pattern_of(e));
        assert(pattern_list(exts.push(e)) =~= pattern_list(exts) + seq![';'] + pattern_of(e));
    } else {
        assert(exts.push(e).drop_first() =~= exts.drop_first().push(e));
        lemma_pattern_list_push(exts.drop_first(), e);
        assert(pattern_list(exts.push(e)) =~= pattern_list(exts) + seq![';'] + pattern_of(e));
    }
}

/// The pattern list of a filter's extensions, as [`pattern_list`] states it.
pub fn extension_pattern(extensions: &Vec<String>) -> (r: String)
    ensures
        r@ == pattern_list(extensions.deep_view()),
{
    let ghost exts = extensions.deep_view();
    let mut r = String::new();
    let n = extensions.len();
    let mut i: usize = 0;
    while i < n
        invariant
            n == extensions@.len(),
            exts == extensions.deep_view(),
            i <= n,
            r@ == pattern_list(exts.take(i as int)),
        decreases n - i,
    {
        proof {
            reveal_strlit(";");
            reveal_strlit("*.");
            assert(";"@ =~= seq![';']);
            assert("*."@ =~= seq!['*', '.']);
            assert(exts.take(i as int).push(exts[i as int]) =~= exts.take(i + 1));
            lemma_pattern_list_push(exts.take(i as int), exts[i as int]);
            assert(exts[i as int] == extensions@[i as int]@);
        }
        if i > 0 {
            r.append(";");
        }
        r.append("*.");
        r.append(extensions[i].as_str());
        proof {
            assert(r@ =~= pattern_list(exts.take(i + 1)));
        }
        i = i + 1;
    }
    proof {
        assert(exts.take(n as int) =~= exts);
    }
    r
}

/// The wide-string filter table handed to the native dialog: for each
/// filter, its NUL-terminated name and its NUL-terminated pattern list.
pub fn filter_table(filters: &Vec<Filter>) -> (r: Vec<(Vec<u16>, Vec<u16>)>)
    ensures
        r@.len() == filters@.len(),
        forall|i: int|
            0 <= i < filters@.len() ==> {
                &&& (#[trigger] r@[i]).0@ == utf16(filters@[i].name@).push(0u16)
                &&& r@[i].1@ == utf16(
                    pattern_list(filters@[i].extensions.deep_view()),
                ).push(0u16)
            },
{
    let mut r: Vec<(Vec<u16>, Vec<u16>)> = Vec::new();
    let n = filters.len();
    let mut i: usize = 0;
    while i < n
        invariant
            n == filters@.len(),
            i <= n,
            r@.len() == i,
            forall|j: int|
                0 <= j < i ==> {
                    &&& (#[trigger] r@[j]).0@ == utf16(filters@[j].name@).push(0u16)
                    &&& r@[j].1@ == utf16(
                        pattern_list(filters@[j].extensions.deep_view()),
                    ).push(0u16)
                },
        decreases n - i,
    {
        let f = &filters[i];
        let name = encode_utf16_nul(f.name.as_str());
        let pattern = extension_pattern(&f.extensions);
        let pattern_units = encode_utf16_nul(pattern.as_str());
        r.push((name, pattern_units));
        i = i + 1;
    }
    r
}

/// The default extension the dialog starts with: the first extension of the
/// first filter, NUL-terminated, when there is one.
pub fn default_extension(filters: &Vec<Filter>) -> (r: Option<Vec<u16>>)
    ensures
        r is Some <==> filters@.len() > 0 && filters@[0].extensions@.len() > 0,
        r is Some ==> r->0@ == utf16(filters@[0].extensions@[0]@).push(0u16),
{
    if filters.len() > 0 {
        let first = &filters[0];
        if first.extensions.len() > 0 {
            return Some(encode_utf16_nul(first.extensions[0].as_str()));
        }
    }
    None
}

} // verus!
