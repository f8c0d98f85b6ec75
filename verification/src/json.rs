//! Reading flat JSON objects through serde_json, behind one trusted
//! declaration, and verified member lookup over what it hands back.

use vstd::prelude::*;

verus! {

/// What serde_json makes of `s` as a flat JSON object: `None` when `s` is
/// not a JSON object; otherwise the object's members with string values
/// and, separately, those with unsigned-integer values, each in the
/// parser's key-sorted member order. A function of the text alone.
pub uninterp spec fn json_object_model(s: Seq<char>) -> Option<
    (Seq<(Seq<char>, Seq<char>)>, Seq<(Seq<char>, u64)>),
>;

/// Relies on `serde_json::from_str::<serde_json::Value>`: parsing is a
/// function of the text, and the member order of serde_json's default
/// (sorted) object map is too.
#[verifier::external_body]
pub(crate) fn parse_json_object(s: &str) -> (r: Option<
    (Vec<(String, String)>, Vec<(String, u64)>),
>)
    ensures
        (r is Some) == (json_object_model(s@) is Some),
        r matches Some(v) ==> json_object_model(s@) == Some((v.0.deep_view(), v.1.deep_view())),
{
    let obj = match serde_json::from_str::<serde_json::Value>(s) {
        Ok(serde_json::Value::Object(m)) => m,
        _ => return None,
    };
    let (mut strs, mut nums) = (Vec::new(), Vec::new());
    for (k, v) in obj {
        match v {
            serde_json::Value::String(t) => strs.push((k, t)),
            serde_json::Value::Number(n) => nums.extend(n.as_u64().map(|u| (k, u))),
            _ => {},
        }
    }
    Some((strs, nums))
}

/// The value of the first member named `k` among the string-valued members.
pub open spec fn lookup_str(fields: Seq<(Seq<char>, Seq<char>)>, k: Seq<char>) -> Option<Seq<char>>
    decreases fields.len(),
{
    if fields.len() == 0 {
        None
    } else if fields[0].0 == k {
        Some(fields[0].1)
    } else {
        lookup_str(fields.skip(1), k)
    }
}

/// The value of the first member named `k` among the integer-valued members.
pub open spec fn lookup_num(fields: Seq<(Seq<char>, u64)>, k: Seq<char>) -> Option<u64>
    decreases fields.len(),
{
    if fields.len() == 0 {
        None
    } else if fields[0].0 == k {
        Some(fields[0].1)
    } else {
        lookup_num(fields.skip(1), k)
    }
}

/// Looks a string-valued member up by name.
pub fn find_str_field(fields: &Vec<(String, String)>, k: &String) -> (r: Option<String>)
    ensures
        (r is Some) == (lookup_str(fields.deep_view(), k@) is Some),
        r matches Some(v) ==> lookup_str(fields.deep_view(), k@) == Some(v@),
{
    let ghost model = fields.deep_view();
    let n: usize = fields.len();
    let mut i: usize = 0;
    proof {
        assert(model.skip(0) =~= model);
    }
    while i < n
        invariant
            n == fields@.len(),
            model == fields.deep_view(),
            i <= n,
            lookup_str(model, k@) == lookup_str(model.skip(i as int), k@),
        decreases n - i,
    {
        proof {
            assert(model.skip(i as int)[0] == model[i as int]);
            assert(model.skip(i as int).skip(1) =~= model.skip(i as int + 1));
        }
        let f = &fields[i];
        if f.0 == *k {
            return Some(f.1.clone());
        }
        i = i + 1;
    }
    None
}

/// Looks an integer-valued member up by name.
pub fn find_num_field(fields: &Vec<(String, u64)>, k: &String) -> (r: Option<u64>)
    ensures
        r == lookup_num(fields.deep_view(), k@),
{
    let ghost model = fields.deep_view();
    let n: usize = fields.len();
    let mut i: usize = 0;
    proof {
        assert(model.skip(0) =~= model);
    }
    while i < n
        invariant
            n == fields@.len(),
            model == fields.deep_view(),
            i <= n,
            lookup_num(model, k@) == lookup_num(model.skip(i as int), k@),
        decreases n - i,
    {
        proof {
            assert(model.skip(i as int)[0] == model[i as int]);
            assert(model.skip(i as int).skip(1) =~= model.skip(i as int + 1));
        }
        let f = &fields[i];
        if f.0 == *k {
            return Some(f.1);
        }
        i = i + 1;
    }
    None
}

} // verus!
