//! A JSON document as a tree of plain values, the typed readers that the
//! data model's decoders are built from, and the writers of its encoders.
//!
//! Each reader has a spec function that says what it finds under a key; a
//! reader fails exactly where that spec function gives `None`.
use vstd::prelude::*;
use crate::error::Error;

verus! {

/// A JSON value.
#[derive(Debug, PartialEq)]
pub enum Json {
    Null,
    Bool(bool),
    /// A number without fraction or exponent.
    Int(i128),
    /// A number with a fraction or an exponent; no field of the model reads
    /// such a number, so its value is not kept.
    Fraction,
    Str(String),
    Arr(Vec<Json>),
    /// An object's members, in document order.
    Obj(Vec<(String, Json)>),
}

/// The value of the first member named `key`.
#[verifier::opaque]
pub open spec fn find_member(members: Seq<(String, Json)>, key: Seq<char>) -> Option<Json>
    decreases members.len(),
{
    if members.len() == 0 {
        None
    } else if members[0].0@ == key {
        Some(members[0].1)
    } else {
        find_member(members.subrange(1, members.len() as int), key)
    }
}

/// The member `key` of `j`, where `j` is an object that has one.
pub open spec fn member(j: Json, key: Seq<char>) -> Option<Json> {
    match j {
        Json::Obj(members) => find_member(members@, key),
        _ => None,
    }
}

/// An integer that fits in an `i64`.
pub open spec fn as_i64(v: Json) -> Option<i64> {
    match v {
        Json::Int(n) => if i64::MIN <= n && n <= i64::MAX {
            Some(n as i64)
        } else {
            None
        },
        _ => None,
    }
}

/// A string's characters.
pub open spec fn as_str(v: Json) -> Option<Seq<char>> {
    match v {
        Json::Str(s) => Some(s@),
        _ => None,
    }
}

/// The integer under `key`, where it fits in an `i64`.
pub open spec fn i64_at(j: Json, key: Seq<char>) -> Option<i64> {
    match member(j, key) {
        Some(v) => as_i64(v),
        None => None,
    }
}

/// The integer under `key`, where it fits in a `u16`.
pub open spec fn u16_at(j: Json, key: Seq<char>) -> Option<u16> {
    match member(j, key) {
        Some(Json::Int(n)) => if 0 <= n && n <= u16::MAX {
            Some(n as u16)
        } else {
            None
        },
        _ => None,
    }
}

/// The integer under `key`, where it fits in a `u64`.
pub open spec fn u64_at(j: Json, key: Seq<char>) -> Option<u64> {
    match member(j, key) {
        Some(Json::Int(n)) => if 0 <= n && n <= u64::MAX {
            Some(n as u64)
        } else {
            None
        },
        _ => None,
    }
}

/// The flag under `key`.
pub open spec fn bool_at(j: Json, key: Seq<char>) -> Option<bool> {
    match member(j, key) {
        Some(Json::Bool(b)) => Some(b),
        _ => None,
    }
}

/// The string under `key`.
pub open spec fn str_at(j: Json, key: Seq<char>) -> Option<Seq<char>> {
    match member(j, key) {
        Some(v) => as_str(v),
        None => None,
    }
}

/// The elements of the array under `key`.
pub open spec fn items_at(j: Json, key: Seq<char>) -> Option<Seq<Json>> {
    match member(j, key) {
        Some(Json::Arr(items)) => Some(items@),
        _ => None,
    }
}

/// The elements of the array under `key`, none where the key is absent.
pub open spec fn items_or_empty_at(j: Json, key: Seq<char>) -> Option<Seq<Json>> {
    match member(j, key) {
        None => Some(Seq::empty()),
        Some(Json::Arr(items)) => Some(items@),
        _ => None,
    }
}

/// An optional value under `key`: absent or `null` is `Some(None)`.
pub open spec fn opt_at(j: Json, key: Seq<char>) -> Option<Json> {
    match member(j, key) {
        None => None,
        Some(Json::Null) => None,
        Some(v) => Some(v),
    }
}

/// An optional integer: `Some(None)` for `null`, `None` where it is
/// something else than an `i64`.
pub open spec fn as_opt_i64(v: Json) -> Option<Option<i64>> {
    match v {
        Json::Null => Some(None),
        _ => match as_i64(v) {
            Some(n) => Some(Some(n)),
            None => None,
        },
    }
}

/// An optional integer under `key`: `Some(None)` where it is absent or
/// `null`, `None` where it is something else than an `i64`.
pub open spec fn opt_i64_at(j: Json, key: Seq<char>) -> Option<Option<i64>> {
    match member(j, key) {
        None => Some(None),
        Some(v) => as_opt_i64(v),
    }
}

/// An optional string, read as `as_opt_i64` reads an integer.
pub open spec fn as_opt_str(v: Json) -> Option<Option<Seq<char>>> {
    match v {
        Json::Null => Some(None),
        Json::Str(s) => Some(Some(s@)),
        _ => None,
    }
}

/// An optional string under `key`, read as `opt_i64_at` reads an integer.
pub open spec fn opt_str_at(j: Json, key: Seq<char>) -> Option<Option<Seq<char>>> {
    match member(j, key) {
        None => Some(None),
        Some(v) => as_opt_str(v),
    }
}

/// The characters of an optional string.
pub open spec fn opt_view(s: Option<String>) -> Option<Seq<char>> {
    match s {
        Some(s) => Some(s@),
        None => None,
    }
}

/// The error of a key that is missing or holds a value of another shape.
fn bad_field(key: &str) -> (r: Error)
    ensures
        r is Message,
{
    let s = String::from_str("Couldn't Deserialize:\nmissing or invalid field `");
    let s = s.concat(key);
    Error::Message(s.concat("`"))
}

/// The error of an array element of another shape.
pub fn bad_item() -> (r: Error)
    ensures
        r is Message,
{
    Error::new_message("Couldn't Deserialize:\ninvalid array element")
}

/// The member named `key`, where `j` is an object that has one.
pub fn get_member<'a>(j: &'a Json, key: &str) -> (r: Option<&'a Json>)
    ensures
        match r {
            Some(v) => member(*j, key@) == Some(*v),
            None => member(*j, key@) is None,
        },
{
    match j {
        Json::Obj(members) => {
            let k = String::from_str(key);
            let mut i: usize = 0;
            assert(members@.subrange(0, members@.len() as int) =~= members@);
            while i < members.len()
                invariant
                    *j == Json::Obj(*members),
                    i <= members@.len(),
                    k@ == key@,
                    find_member(members@, key@) == find_member(
                        members@.subrange(i as int, members@.len() as int),
                        key@,
                    ),
                decreases members@.len() - i,
            {
                proof {
                    let rest = members@.subrange(i as int, members@.len() as int);
                    assert(rest.subrange(1, rest.len() as int) =~= members@.subrange(
                        i + 1,
                        members@.len() as int,
                    ));
                    assert(rest[0] == members@[i as int]);
                    reveal(find_member);
                    assert(find_member(rest, key@) == if rest[0].0@ == key@ {
                        Some(rest[0].1)
                    } else {
                        find_member(rest.subrange(1, rest.len() as int), key@)
                    });
                }
                if members[i].0 == k {
                    return Some(&members[i].1);
                }
                i = i + 1;
            }
            proof {
                reveal(find_member);
                let rest = members@.subrange(i as int, members@.len() as int);
                assert(rest.len() == 0);
            }
            None
        },
        _ => None,
    }
}

/// The element `v` as an `i64`.
pub fn read_i64(v: &Json) -> (r: Result<i64, Error>)
    ensures
        match r {
            Ok(n) => as_i64(*v) == Some(n),
            Err(e) => as_i64(*v) is None && e is Message,
        },
{
    match v {
        Json::Int(n) => if i64::MIN as i128 <= *n && *n <= i64::MAX as i128 {
            Ok(*n as i64)
        } else {
            Err(bad_item())
        },
        _ => Err(bad_item()),
    }
}

/// The element `v` as a string.
pub fn read_str(v: &Json) -> (r: Result<String, Error>)
    ensures
        match r {
            Ok(s) => as_str(*v) == Some(s@),
            Err(e) => as_str(*v) is None && e is Message,
        },
{
    match v {
        Json::Str(s) => Ok(s.clone()),
        _ => Err(bad_item()),
    }
}

/// The member `key`, which must be there.
pub fn get_required<'a>(j: &'a Json, key: &str) -> (r: Result<&'a Json, Error>)
    ensures
        match r {
            Ok(v) => member(*j, key@) == Some(*v),
            Err(e) => member(*j, key@) is None && e is Message,
        },
{
    match get_member(j, key) {
        Some(v) => Ok(v),
        None => Err(bad_field(key)),
    }
}

/// The `i64` under `key`.
pub fn get_i64(j: &Json, key: &str) -> (r: Result<i64, Error>)
    ensures
        match r {
            Ok(n) => i64_at(*j, key@) == Some(n),
            Err(e) => i64_at(*j, key@) is None && e is Message,
        },
{
    match get_member(j, key) {
        Some(v) => match read_i64(v) {
            Ok(n) => Ok(n),
            Err(_) => Err(bad_field(key)),
        },
        None => Err(bad_field(key)),
    }
}

/// The `u16` under `key`.
pub fn get_u16(j: &Json, key: &str) -> (r: Result<u16, Error>)
    ensures
        match r {
            Ok(n) => u16_at(*j, key@) == Some(n),
            Err(e) => u16_at(*j, key@) is None && e is Message,
        },
{
    match get_member(j, key) {
        Some(Json::Int(n)) => if 0 <= *n && *n <= u16::MAX as i128 {
            Ok(*n as u16)
        } else {
            Err(bad_field(key))
        },
        _ => Err(bad_field(key)),
    }
}

/// The `u64` under `key`.
pub fn get_u64(j: &Json, key: &str) -> (r: Result<u64, Error>)
    ensures
        match r {
            Ok(n) => u64_at(*j, key@) == Some(n),
            Err(e) => u64_at(*j, key@) is None && e is Message,
        },
{
    match get_member(j, key) {
        Some(Json::Int(n)) => if 0 <= *n && *n <= u64::MAX as i128 {
            Ok(*n as u64)
        } else {
            Err(bad_field(key))
        },
        _ => Err(bad_field(key)),
    }
}

/// The flag under `key`.
pub fn get_bool(j: &Json, key: &str) -> (r: Result<bool, Error>)
    ensures
        match r {
            Ok(b) => bool_at(*j, key@) == Some(b),
            Err(e) => bool_at(*j, key@) is None && e is Message,
        },
{
    match get_member(j, key) {
        Some(Json::Bool(b)) => Ok(*b),
        _ => Err(bad_field(key)),
    }
}

/// The string under `key`.
pub fn get_str(j: &Json, key: &str) -> (r: Result<String, Error>)
    ensures
        match r {
            Ok(s) => str_at(*j, key@) == Some(s@),
            Err(e) => str_at(*j, key@) is None && e is Message,
        },
{
    match get_member(j, key) {
        Some(Json::Str(s)) => Ok(s.clone()),
        _ => Err(bad_field(key)),
    }
}

/// The array under `key`.
pub fn get_items<'a>(j: &'a Json, key: &str) -> (r: Result<&'a Vec<Json>, Error>)
    ensures
        match r {
            Ok(items) => items_at(*j, key@) == Some(items@),
            Err(e) => items_at(*j, key@) is None && e is Message,
        },
{
    match get_member(j, key) {
        Some(Json::Arr(items)) => Ok(items),
        _ => Err(bad_field(key)),
    }
}

/// The optional value under `key`.
pub fn get_opt<'a>(j: &'a Json, key: &str) -> (r: Option<&'a Json>)
    ensures
        match r {
            Some(v) => opt_at(*j, key@) == Some(*v),
            None => opt_at(*j, key@) is None,
        },
{
    match get_member(j, key) {
        None => None,
        Some(Json::Null) => None,
        Some(v) => Some(v),
    }
}

/// The optional `i64` under `key`.
pub fn get_opt_i64(j: &Json, key: &str) -> (r: Result<Option<i64>, Error>)
    ensures
        match r {
            Ok(n) => opt_i64_at(*j, key@) == Some(n),
            Err(e) => opt_i64_at(*j, key@) is None && e is Message,
        },
{
    match get_opt(j, key) {
        None => Ok(None),
        Some(v) => match read_i64(v) {
            Ok(n) => Ok(Some(n)),
            Err(_) => Err(bad_field(key)),
        },
    }
}

/// The optional string under `key`.
pub fn get_opt_str(j: &Json, key: &str) -> (r: Result<Option<String>, Error>)
    ensures
        match r {
            Ok(s) => opt_str_at(*j, key@) == Some(opt_view(s)),
            Err(e) => opt_str_at(*j, key@) is None && e is Message,
        },
{
    match get_opt(j, key) {
        None => Ok(None),
        Some(v) => match read_str(v) {
            Ok(s) => Ok(Some(s)),
            Err(_) => Err(bad_field(key)),
        },
    }
}

/// The member named `key`, taken out of the object `j`.
pub fn take_member(j: Json, key: &str) -> (r: Result<Json, Error>)
    ensures
        match r {
            Ok(v) => member(j, key@) == Some(v),
            Err(e) => member(j, key@) is None && e is Message,
        },
{
    let ghost found = member(j, key@);
    match j {
        Json::Obj(members) => {
            let ghost whole = members@;
            let mut members = members;
            let k = String::from_str(key);
            let mut i: usize = 0;
            assert(whole.subrange(0, whole.len() as int) =~= whole);
            while i < members.len()
                invariant
                    members@ == whole,
                    found == find_member(whole, key@),
                    found == member(j, key@),
                    i <= whole.len(),
                    k@ == key@,
                    find_member(whole, key@) == find_member(
                        whole.subrange(i as int, whole.len() as int),
                        key@,
                    ),
                decreases whole.len() - i,
            {
                proof {
                    let rest = whole.subrange(i as int, whole.len() as int);
                    assert(rest.subrange(1, rest.len() as int) =~= whole.subrange(
                        i + 1,
                        whole.len() as int,
                    ));
                    assert(rest[0] == whole[i as int]);
                    reveal(find_member);
                    assert(find_member(rest, key@) == if rest[0].0@ == key@ {
                        Some(rest[0].1)
                    } else {
                        find_member(rest.subrange(1, rest.len() as int), key@)
                    });
                }
                if members[i].0 == k {
                    let pair = members.remove(i);
                    return Ok(pair.1);
                }
                i = i + 1;
            }
            proof {
                reveal(find_member);
                let rest = whole.subrange(i as int, whole.len() as int);
                assert(rest.len() == 0);
            }
            Err(bad_field(key))
        },
        _ => Err(bad_field(key)),
    }
}

/// The elements of the array under `key`, taken out of the object `j`.
pub fn take_items(j: Json, key: &str) -> (r: Result<Vec<Json>, Error>)
    ensures
        match r {
            Ok(items) => items_at(j, key@) == Some(items@),
            Err(e) => items_at(j, key@) is None && e is Message,
        },
{
    match take_member(j, key) {
        Ok(Json::Arr(items)) => Ok(items),
        _ => Err(bad_field(key)),
    }
}

/// The array under `key`; `None` where the key is absent, which stands for
/// no elements.
pub fn get_items_or_empty<'a>(j: &'a Json, key: &str) -> (r: Result<Option<&'a Vec<Json>>, Error>)
    ensures
        match r {
            Ok(Some(items)) => items_or_empty_at(*j, key@) == Some(items@),
            Ok(None) => items_or_empty_at(*j, key@) == Some(Seq::<Json>::empty()),
            Err(e) => items_or_empty_at(*j, key@) is None && e is Message,
        },
{
    match get_member(j, key) {
        None => Ok(None),
        Some(Json::Arr(items)) => Ok(Some(items)),
        _ => Err(bad_field(key)),
    }
}

/// Every element of `items` is a string.
pub open spec fn strs_valid(items: Seq<Json>) -> bool {
    forall|k: int| 0 <= k < items.len() ==> (#[trigger] as_str(items[k])) is Some
}

/// `v` holds the strings of `items`, in order.
pub open spec fn strs_match(items: Seq<Json>, v: Seq<String>) -> bool {
    &&& items.len() == v.len()
    &&& forall|k: int| 0 <= k < v.len() ==> #[trigger] as_str(items[k]) == Some(v[k]@)
}

/// Every element of `items` is an integer that fits in an `i64`.
pub open spec fn i64s_valid(items: Seq<Json>) -> bool {
    forall|k: int| 0 <= k < items.len() ==> (#[trigger] as_i64(items[k])) is Some
}

/// `v` holds the integers of `items`, in order.
pub open spec fn i64s_match(items: Seq<Json>, v: Seq<i64>) -> bool {
    &&& items.len() == v.len()
    &&& forall|k: int| 0 <= k < v.len() ==> #[trigger] as_i64(items[k]) == Some(v[k])
}

/// The strings of `items`, in order.
pub fn read_strs(items: &Vec<Json>) -> (r: Result<Vec<String>, Error>)
    ensures
        r is Ok <==> strs_valid(items@),
        r matches Ok(v) ==> strs_match(items@, v@),
        r matches Err(e) ==> e is Message,
{
    let mut out: Vec<String> = Vec::new();
    let mut i: usize = 0;
    while i < items.len()
        invariant
            i <= items@.len(),
            out@.len() == i,
            forall|k: int| 0 <= k < i ==> (#[trigger] as_str(items@[k])) is Some,
            forall|k: int| 0 <= k < i ==> as_str(items@[k]) == Some((#[trigger] out@[k])@),
        decreases items@.len() - i,
    {
        let s = read_str(&items[i])?;
        out.push(s);
        i = i + 1;
    }
    Ok(out)
}

/// The integers of `items`, in order.
pub fn read_i64s(items: &Vec<Json>) -> (r: Result<Vec<i64>, Error>)
    ensures
        r is Ok <==> i64s_valid(items@),
        r matches Ok(v) ==> i64s_match(items@, v@),
        r matches Err(e) ==> e is Message,
{
    let mut out: Vec<i64> = Vec::new();
    let mut i: usize = 0;
    while i < items.len()
        invariant
            i <= items@.len(),
            out@.len() == i,
            forall|k: int| 0 <= k < i ==> (#[trigger] as_i64(items@[k])) is Some,
            forall|k: int| 0 <= k < i ==> as_i64(items@[k]) == Some(#[trigger] out@[k]),
        decreases items@.len() - i,
    {
        let n = read_i64(&items[i])?;
        out.push(n);
        i = i + 1;
    }
    Ok(out)
}


/// `a` comes before `b` in the order of their characters, and the first
/// place where they differ is `i` (or `a` ends there).
pub open spec fn key_lt_at(a: Seq<char>, b: Seq<char>, i: int) -> bool {
    &&& 0 <= i <= a.len()
    &&& i < b.len()
    &&& forall|m: int| 0 <= m < i ==> a[m] == b[m]
    &&& (i == a.len() || (a[i] as u32) < (b[i] as u32))
}

/// `a` comes before `b` in the order of their characters.
pub open spec fn key_lt(a: Seq<char>, b: Seq<char>) -> bool {
    exists|i: int| key_lt_at(a, b, i)
}

/// The members' names are in strictly increasing order.
#[verifier::opaque]
pub open spec fn sorted_members(members: Seq<(String, Json)>) -> bool {
    forall|i: int| 0 < i < members.len() ==> key_lt(members[i - 1].0@, #[trigger] members[i].0@)
}

/// A name comes before a different one only.
pub proof fn lemma_key_lt_ne(a: Seq<char>, b: Seq<char>)
    requires
        key_lt(a, b),
    ensures
        a != b,
{
    let i = choose|i: int| key_lt_at(a, b, i);
    if i == a.len() {
        assert(a.len() != b.len());
    } else {
        assert(a[i] != b[i]);
    }
}

/// The order of names is transitive.
pub proof fn lemma_key_lt_trans(a: Seq<char>, b: Seq<char>, c: Seq<char>)
    requires
        key_lt(a, b),
        key_lt(b, c),
    ensures
        key_lt(a, c),
{
    let i = choose|i: int| key_lt_at(a, b, i);
    let j = choose|j: int| key_lt_at(b, c, j);
    if i < j {
        assert(key_lt_at(a, c, i));
    } else if j < i {
        assert(key_lt_at(a, c, j));
    } else {
        assert(key_lt_at(a, c, i));
    }
}

/// In sorted members, an earlier name comes before a later one.
pub proof fn lemma_sorted_lt(members: Seq<(String, Json)>, i: int, k: int)
    requires
        sorted_members(members),
        0 <= i < k < members.len(),
    ensures
        key_lt(members[i].0@, members[k].0@),
    decreases k - i,
{
    reveal(sorted_members);
    assert(key_lt(members[k - 1].0@, members[k].0@));
    if i < k - 1 {
        lemma_sorted_lt(members, i, k - 1);
        lemma_key_lt_trans(members[i].0@, members[k - 1].0@, members[k].0@);
    }
}

/// In sorted members, the member found under a name is the one of that name.
pub proof fn lemma_sorted_find(members: Seq<(String, Json)>, k: int)
    requires
        sorted_members(members),
        0 <= k < members.len(),
    ensures
        find_member(members, members[k].0@) == Some(members[k].1),
    decreases k,
{
    reveal(find_member);
    reveal(sorted_members);
    if k > 0 {
        lemma_sorted_lt(members, 0, k);
        lemma_key_lt_ne(members[0].0@, members[k].0@);
        let rest = members.subrange(1, members.len() as int);
        assert(rest[k - 1] == members[k]);
        assert forall|i: int| 0 < i < rest.len() implies key_lt(
            rest[i - 1].0@,
            #[trigger] rest[i].0@,
        ) by {
            assert(rest[i] == members[i + 1]);
            assert(rest[i - 1] == members[i]);
            assert(key_lt(members[i].0@, members[i + 1].0@));
        }
        lemma_sorted_find(rest, k - 1);
    }
}

/// Appending a member leaves what an earlier name finds unchanged.
pub proof fn lemma_find_push(members: Seq<(String, Json)>, x: (String, Json), key: Seq<char>)
    requires
        find_member(members, key) is Some,
    ensures
        find_member(members.push(x), key) == find_member(members, key),
    decreases members.len(),
{
    reveal(find_member);
    let longer = members.push(x);
    assert(longer.subrange(1, longer.len() as int) =~= members.subrange(
        1,
        members.len() as int,
    ).push(x));
    if members[0].0@ != key {
        lemma_find_push(members.subrange(1, members.len() as int), x, key);
    }
}

/// Appends the member `key` to members sorted by name, where `key` comes
/// after the last name.
pub fn push_member(members: &mut Vec<(String, Json)>, key: &str, v: Json)
    requires
        old(members)@.len() > 0 ==> sorted_members(old(members)@) && key_lt(
            old(members)@.last().0@,
            key@,
        ),
    ensures
        sorted_members(final(members)@),
        final(members)@.len() == old(members)@.len() + 1,
        final(members)@.last().0@ == key@,
        find_member(final(members)@, key@) == Some(v),
        forall|q: Seq<char>|
            find_member(old(members)@, q) is Some ==> #[trigger] find_member(final(members)@, q)
                == find_member(old(members)@, q),
{
    proof {
        reveal(sorted_members);
    }
    let ghost before = members@;
    let name = String::from_str(key);
    members.push((name, v));
    proof {
        let after = members@;
        assert forall|i: int| 0 < i < after.len() implies key_lt(
            after[i - 1].0@,
            #[trigger] after[i].0@,
        ) by {
            if i < before.len() {
                assert(after[i] == before[i]);
                assert(after[i - 1] == before[i - 1]);
            }
        }
        lemma_sorted_find(after, after.len() - 1);
        assert forall|q: Seq<char>| find_member(before, q) is Some implies #[trigger] find_member(
            after,
            q,
        ) == find_member(before, q) by {
            lemma_find_push(before, (name, v), q);
        }
    }
}

/// `v` as an array of strings.
pub fn strs_into_json(v: Vec<String>) -> (r: Json)
    ensures
        r matches Json::Arr(items) && strs_valid(items@) && strs_match(items@, v@),
{
    let ghost whole = v@;
    let mut rest = v;
    let mut out: Vec<Json> = Vec::new();
    while rest.len() > 0
        invariant
            whole == v@,
            out@.len() <= whole.len(),
            rest@ == whole.subrange(out@.len() as int, whole.len() as int),
            forall|k: int| 0 <= k < out@.len() ==> #[trigger] as_str(out@[k]) == Some(whole[k]@),
        decreases rest@.len(),
    {
        let ghost at = out@.len() as int;
        let s = rest.remove(0);
        assert(s == whole[at]);
        out.push(Json::Str(s));
        assert(rest@ =~= whole.subrange(out@.len() as int, whole.len() as int));
    }
    Json::Arr(out)
}

/// `v` as an array of integers.
pub fn i64s_into_json(v: Vec<i64>) -> (r: Json)
    ensures
        r matches Json::Arr(items) && i64s_valid(items@) && i64s_match(items@, v@),
{
    let mut out: Vec<Json> = Vec::new();
    let mut i: usize = 0;
    while i < v.len()
        invariant
            i <= v@.len(),
            out@.len() == i,
            forall|k: int| 0 <= k < i ==> #[trigger] as_i64(out@[k]) == Some(v@[k]),
        decreases v@.len() - i,
    {
        out.push(Json::Int(v[i] as i128));
        i = i + 1;
    }
    Json::Arr(out)
}

/// An optional integer as JSON: the integer, or `null`.
pub fn opt_i64_into_json(o: Option<i64>) -> (r: Json)
    ensures
        as_opt_i64(r) == Some(o),
{
    match o {
        Some(n) => Json::Int(n as i128),
        None => Json::Null,
    }
}

/// An optional string as JSON: the string, or `null`.
pub fn opt_str_into_json(o: Option<String>) -> (r: Json)
    ensures
        as_opt_str(r) == Some(opt_view(o)),
{
    match o {
        Some(s) => Json::Str(s),
        None => Json::Null,
    }
}

} // verus!
