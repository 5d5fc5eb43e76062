//! Client Credentials flow decision logic: form construction and the
//! separation of strategy-supplied extras from reserved parameters.

use vstd::prelude::*;

use crate::auth::scope::ScopeSet;
use crate::flows::common::join_with;
use crate::provider::descriptor::grant::GrantType;
use crate::text::str_eq_chars;
use vstd::string::StringExecFns;

verus! {

/// The character views of a form: each pair's key and value.
pub open spec fn pair_views(v: Seq<(String, String)>) -> Seq<(Seq<char>, Seq<char>)> {
    Seq::new(v.len(), |i: int| (v[i].0@, v[i].1@))
}

/// Keys the broker fills itself; strategy-supplied entries under these keys
/// are dropped from the extras.
pub open spec fn reserved_form_key(k: Seq<char>) -> bool {
    k == "grant_type"@ || k == "scope"@
}

/// The form with the reserved keys removed, order preserved.
pub open spec fn drop_reserved(s: Seq<(Seq<char>, Seq<char>)>) -> Seq<(Seq<char>, Seq<char>)>
    decreases s.len(),
{
    if s.len() == 0 {
        Seq::empty()
    } else {
        let pre = drop_reserved(s.drop_last());
        if reserved_form_key(s.last().0) {
            pre
        } else {
            pre.push(s.last())
        }
    }
}

/// Builds the `client_credentials` token request form: the grant type, then
/// the joined scope parameter when any scope was requested.
pub fn build_client_credentials_form(scope: &ScopeSet, delimiter: char) -> (r: Vec<
    (String, String),
>)
    ensures
        scope@.len() == 0 ==> pair_views(r@) == seq![
            ("grant_type"@, GrantType::ClientCredentials.spec_as_str()),
        ],
        scope@.len() > 0 ==> pair_views(r@) == seq![
            ("grant_type"@, GrantType::ClientCredentials.spec_as_str()),
            ("scope"@, join_with(scope@, delimiter)),
        ],
{
    let mut form: Vec<(String, String)> = Vec::new();
    let grant_value = String::from_str(GrantType::ClientCredentials.as_str());
    form.push((String::from_str("grant_type"), grant_value));
    match crate::flows::common::format_scope(scope, delimiter) {
        Some(value) => {
            form.push((String::from_str("scope"), value));
            proof {
                assert(pair_views(form@) =~= seq![
                    ("grant_type"@, GrantType::ClientCredentials.spec_as_str()),
                    ("scope"@, join_with(scope@, delimiter)),
                ]);
            }
        },
        None => {
            proof {
                assert(pair_views(form@) =~= seq![
                    ("grant_type"@, GrantType::ClientCredentials.spec_as_str()),
                ]);
            }
        },
    }
    form
}

/// Extracts the non-reserved entries of a strategy-augmented form: the
/// extra parameters handed to the token request, in form order. Reserved
/// keys (`grant_type`, `scope`) are already handled by the broker itself.
pub fn extract_extra_params(form: Vec<(String, String)>) -> (r: Vec<(String, String)>)
    ensures
        pair_views(r@) == drop_reserved(pair_views(form@)),
{
    let ghost fv = pair_views(form@);
    let mut out: Vec<(String, String)> = Vec::new();
    let n = form.len();
    let mut i: usize = 0;
    for i in 0..n
        invariant
            n == form@.len(),
            fv == pair_views(form@),
            pair_views(out@) == drop_reserved(fv.subrange(0, i as int)),
    {
        let reserved = str_eq_chars(form[i].0.as_str(), "grant_type") || str_eq_chars(
            form[i].0.as_str(),
            "scope",
        );
        let ghost pre = fv.subrange(0, i as int);
        let ghost cur = fv.subrange(0, i + 1);
        proof {
            assert(cur.drop_last() =~= pre);
            assert(cur.last() == fv[i as int]);
            assert(fv[i as int] == (form@[i as int].0@, form@[i as int].1@));
        }
        if !reserved {
            let entry = (form[i].0.clone(), form[i].1.clone());
            out.push(entry);
            proof {
                assert(pair_views(out@) =~= drop_reserved(pre).push(fv[i as int]));
            }
        } else {
            proof {
                assert(pair_views(out@) == drop_reserved(pre));
            }
        }
    }
    proof {
        assert(fv.subrange(0, n as int) =~= fv);
    }
    out
}

} // verus!
