use vstd::prelude::*;

use crate::errors::Error;

verus! {

/// Relies on String::push: appends exactly the one character.
#[verifier::external_body]
fn push_char(s: &mut String, c: char)
    ensures
        final(s)@ == old(s)@.push(c),
{
    s.push(c);
}

/// `d` is the position of the first '/' in `s`.
pub open spec fn first_slash_at(s: Seq<char>, d: int) -> bool {
    0 <= d < s.len() && s[d] == '/' && (forall|j: int| 0 <= j < d ==> s[j] != '/')
}

/// How a target name splits as a service principal name: at the first '/',
/// which must exist and must have at least one character on each side.
pub open spec fn parse_spec(s: Seq<char>) -> Result<(Seq<char>, Seq<char>), Error> {
    if exists|d: int| first_slash_at(s, d) {
        let d = choose|d: int| first_slash_at(s, d);
        if d == 0 || d == s.len() - 1 {
            Err(Error::InvalidParameter)
        } else {
            Ok((s.subrange(0, d), s.subrange(d + 1, s.len() as int)))
        }
    } else {
        Err(Error::InvalidParameter)
    }
}

/// The first '/' position is unique, so `parse_spec` picks exactly it.
pub proof fn lemma_first_slash_unique(s: Seq<char>, d: int)
    requires
        first_slash_at(s, d),
    ensures
        (choose|e: int| first_slash_at(s, e)) == d,
{
    assert(exists|e: int| first_slash_at(s, e));
    let e = choose|e: int| first_slash_at(s, e);
    if e < d {
        assert(s[e] != '/');
    }
    if d < e {
        assert(s[d] != '/');
    }
}

/// Splits a composite target name into its service class and its instance at
/// the first '/'. Fails when the separator is absent, first, or last; no
/// normalization of either part is performed.
pub fn parse_target_name(target_name: &str) -> (r: Result<(String, String), Error>)
    ensures
        match r {
            Ok(parts) => parse_spec(target_name@) == Ok::<_, Error>((parts.0@, parts.1@)),
            Err(e) => parse_spec(target_name@) == Err::<(Seq<char>, Seq<char>), Error>(e),
        },
{
    let ghost s = target_name@;
    let mut service = String::new();
    let mut instance = String::new();
    let mut seen = false;
    for c in it: target_name.chars()
        invariant
            it.seq() == s,
            it.index() <= s.len(),
            !seen ==> it.index() == service@.len() && instance@.len() == 0,
            seen ==> service@.len() < it.index() && it.index() == service@.len() + 1
                + instance@.len(),
            service@ == s.subrange(0, service@.len() as int),
            forall|j: int| 0 <= j < service@.len() ==> s[j] != '/',
            seen ==> s[service@.len() as int] == '/',
            seen ==> instance@ == s.subrange(
                service@.len() + 1 as int,
                service@.len() + 1 + instance@.len() as int,
            ),
    {
        assert(c == s[it.index() as int]);
        if seen {
            push_char(&mut instance, c);
            proof {
                assert(instance@ =~= s.subrange(
                    service@.len() + 1 as int,
                    service@.len() + 1 + instance@.len() as int,
                ));
            }
        } else if c == '/' {
            seen = true;
        } else {
            push_char(&mut service, c);
            proof {
                assert(service@ =~= s.subrange(0, service@.len() as int));
            }
        }
    }
    if !seen {
        proof {
            assert(!exists|d: int| first_slash_at(s, d)) by {
                if exists|d: int| first_slash_at(s, d) {
                    let d = choose|d: int| first_slash_at(s, d);
                    assert(s[d] != '/');
                }
            }
        }
        return Err(Error::InvalidParameter);
    }
    let ghost d = service@.len() as int;
    proof {
        assert(first_slash_at(s, d));
        lemma_first_slash_unique(s, d);
    }
    if service.as_str().is_empty() {
        return Err(Error::InvalidParameter);
    }
    if instance.as_str().is_empty() {
        return Err(Error::InvalidParameter);
    }
    proof {
        assert(instance@ =~= s.subrange(d + 1, s.len() as int));
    }
    Ok((service, instance))
}

/// Fails fast when no hostname was provided; otherwise hands the hostname
/// back as an owned string.
pub fn unwrap_hostname(hostname: Option<&str>) -> (r: Result<String, Error>)
    ensures
        match r {
            Ok(h) => hostname is Some && h@ == hostname->0@,
            Err(e) => hostname is None && e == Error::InvalidParameter,
        },
{
    if let Some(h) = hostname {
        Ok(h.to_owned())
    } else {
        Err(Error::InvalidParameter)
    }
}

} // verus!
