//! Header utilities: first-match lookup and construction of header-mutation
//! and immediate-response instructions.
use crate::message::{
    CommonResponse, HeaderMap, HeaderMutation, HeaderValue, ImmediateResponse, ProcessingResponse,
    ResponseKind,
};
use vstd::prelude::*;

verus! {

/// First-match, case-sensitive lookup of `name` in a header sequence.
pub open spec fn spec_lookup(headers: Seq<HeaderValue>, name: Seq<char>) -> Option<Seq<char>>
    decreases headers.len(),
{
    if headers.len() == 0 {
        None
    } else if headers[0].key@ == name {
        Some(headers[0].value@)
    } else {
        spec_lookup(headers.skip(1), name)
    }
}

/// Lookup through the optional header map of a headers-phase message.
pub open spec fn spec_header_value(hm: Option<HeaderMap>, name: Seq<char>) -> Option<Seq<char>> {
    match hm {
        Some(m) => spec_lookup(m.headers@, name),
        None => None,
    }
}

/// Case-sensitive comparison of an owned string against a borrowed one.
pub fn string_eq_str(s: &String, t: &str) -> (r: bool)
    ensures
        r == (s@ == t@),
{
    let owned: String = t.to_owned();
    *s == owned
}

/// Returns the value of the first header named `name`, if any.
pub fn get_header_value<'a>(header_map: &'a Option<HeaderMap>, name: &str) -> (r: Option<
    &'a String,
>)
    ensures
        match r {
            Some(v) => spec_header_value(*header_map, name@) == Some(v@),
            None => spec_header_value(*header_map, name@) is None,
        },
{
    match header_map.as_ref() {
        Some(headers) => {
            let n = headers.headers.len();
            let mut i: usize = 0;
            proof {
                assert(headers.headers@.skip(0) =~= headers.headers@);
            }
            while i < n
                invariant
                    i <= n,
                    n == headers.headers@.len(),
                    header_map is Some,
                    (*header_map)->0.headers@ == headers.headers@,
                    spec_lookup(headers.headers@, name@) == spec_lookup(
                        headers.headers@.skip(i as int),
                        name@,
                    ),
                decreases n - i,
            {
                if string_eq_str(&headers.headers[i].key, name) {
                    proof {
                        let rest = headers.headers@.skip(i as int);
                        assert(rest[0] == headers.headers@[i as int]);
                        assert(spec_lookup(rest, name@) == Some(rest[0].value@));
                    }
                    return Some(&headers.headers[i].value);
                }
                proof {
                    assert(headers.headers@.skip(i as int).skip(1) =~= headers.headers@.skip(
                        i + 1,
                    ));
                    assert(headers.headers@.skip(i as int)[0] == headers.headers@[i as int]);
                }
                i += 1;
            }
            proof {
                assert(headers.headers@.skip(n as int) =~= Seq::<HeaderValue>::empty());
            }
            None
        },
        None => None,
    }
}

/// Builds the terminal instruction carrying a synthesized HTTP status.
pub fn new_error(status: i32, msg: &str) -> (r: ProcessingResponse)
    ensures
        r.response matches ResponseKind::ImmediateResponse(im) && im.status == status
            && im.details@ == msg@,
        r.mode_override is None,
{
    ProcessingResponse {
        response: ResponseKind::ImmediateResponse(
            ImmediateResponse { status, details: msg.to_owned() },
        ),
        mode_override: None,
    }
}

/// Appends one "set header" instruction, creating the mutation container
/// lazily; earlier instructions and any body mutation are kept unchanged.
pub fn add_set_header(cr: &mut CommonResponse, key: &str, value: &str)
    ensures
        final(cr).body_mutation == old(cr).body_mutation,
        ({
            let prior_set = match old(cr).header_mutation {
                Some(hm) => hm.set_headers@,
                None => Seq::<HeaderValue>::empty(),
            };
            let prior_rm = match old(cr).header_mutation {
                Some(hm) => hm.remove_headers@,
                None => Seq::<String>::empty(),
            };
            &&& final(cr).header_mutation matches Some(hm2) && hm2.set_headers@.len()
                == prior_set.len() + 1 && hm2.set_headers@.take(prior_set.len() as int)
                == prior_set && hm2.set_headers@[prior_set.len() as int].key@ == key@
                && hm2.set_headers@[prior_set.len() as int].value@ == value@
                && hm2.remove_headers@ == prior_rm
        }),
{
    let new_header = HeaderValue { key: key.to_owned(), value: value.to_owned() };
    match &mut cr.header_mutation {
        Some(hm) => {
            hm.set_headers.push(new_header);
            proof {
                let prior_set = old(cr).header_mutation.unwrap().set_headers@;
                assert(prior_set.push(new_header).take(prior_set.len() as int) =~= prior_set);
            }
        },
        None => {
            let mut hm = HeaderMutation { set_headers: Vec::new(), remove_headers: Vec::new() };
            hm.set_headers.push(new_header);
            cr.header_mutation = Some(hm);
            proof {
                assert(Seq::<HeaderValue>::empty().push(new_header).take(0)
                    =~= Seq::<HeaderValue>::empty());
            }
        },
    }
}

} // verus!
