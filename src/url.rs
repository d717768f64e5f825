//! Addresses of the remote search listing.
use vstd::prelude::*;
use crate::text::{chars_of, decimal_string, push_decimal, string_of};

verus! {

pub const SEARCH_BASE: &'static str = "https://browser.geekbench.com/v5/cpu/search?utf8=%E2%9C%93&page=";

pub const QUERY_PART: &'static str = "&q=";

pub open spec fn plus_for_space(c: char) -> char {
    if c == ' ' { '+' } else { c }
}

/// A name as it stands in the query: each space written as `+`.
pub open spec fn query_name(s: Seq<char>) -> Seq<char> {
    s.map_values(|c: char| plus_for_space(c))
}

/// The address of listing page `page` of the search for `name`.
pub open spec fn url_spec(name: Seq<char>, page: nat) -> Seq<char> {
    SEARCH_BASE@ + decimal_string(page) + QUERY_PART@ + query_name(name)
}

/// The address of one listing page of the search for a processor name.
pub fn to_url(cpu_name: &str, page: u32) -> (r: String)
    ensures
        r@ == url_spec(cpu_name@, page as nat),
{
    let mut out = chars_of(SEARCH_BASE);
    push_decimal(page, &mut out);
    let mut q = chars_of(QUERY_PART);
    out.append(&mut q);
    let ghost start = out@;
    let cs = chars_of(cpu_name);
    let mut i: usize = 0;
    while i < cs.len()
        invariant
            i <= cs.len(),
            cs@ == cpu_name@,
            out@ == start + query_name(cs@.take(i as int)),
        decreases cs.len() - i,
    {
        let c = cs[i];
        out.push(if c == ' ' { '+' } else { c });
        i = i + 1;
        assert(out@ =~= start + query_name(cs@.take(i as int)));
    }
    assert(cs@.take(i as int) =~= cs@);
    assert(out@ =~= url_spec(cpu_name@, page as nat));
    string_of(&out)
}

} // verus!
