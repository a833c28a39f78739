use vstd::prelude::*;

verus! {

/// A loosely typed JSON tree. Numbers keep the exact text they were written
/// with; an object keeps its members in order, and where a key repeats the
/// last member with that key is the one that counts.
#[derive(Debug, PartialEq, Eq)]
pub enum JsonValue {
    Null,
    Bool(bool),
    Number(String),
    Str(String),
    Array(Vec<JsonValue>),
    Object(Vec<(String, JsonValue)>),
}

/// The key-to-value map that a member list denotes (later members win).
pub open spec fn members_map(m: Seq<(String, JsonValue)>) -> Map<Seq<char>, JsonValue>
    decreases m.len(),
{
    if m.len() == 0 {
        Map::empty()
    } else {
        members_map(m.drop_last()).insert(m.last().0@, m.last().1)
    }
}

/// The fields of a value: its members if it is an object, none otherwise.
pub open spec fn fields(v: JsonValue) -> Map<Seq<char>, JsonValue> {
    match v {
        JsonValue::Object(m) => members_map(m@),
        _ => Map::empty(),
    }
}

/// The value under `key`, or null where there is none.
pub open spec fn child(v: JsonValue, key: Seq<char>) -> JsonValue {
    if fields(v).contains_key(key) {
        fields(v)[key]
    } else {
        JsonValue::Null
    }
}

proof fn lemma_members_map_push(m: Seq<(String, JsonValue)>, x: (String, JsonValue))
    ensures
        members_map(m.push(x)) == members_map(m).insert(x.0@, x.1),
{
    assert(m.push(x).drop_last() =~= m);
}

/// Removes every member named `key` from `m`; also hands back the value that
/// the name had, or null.
fn take_key(m: Vec<(String, JsonValue)>, key: &str) -> (r: (Vec<(String, JsonValue)>, JsonValue))
    ensures
        members_map(r.0@) == members_map(m@).remove(key@),
        r.1 == (if members_map(m@).contains_key(key@) {
            members_map(m@)[key@]
        } else {
            JsonValue::Null
        }),
{
    let ghost orig = m@;
    let key_s = key.to_owned();
    let mut rest = m;
    let mut kept: Vec<(String, JsonValue)> = Vec::new();
    let mut found = JsonValue::Null;
    while rest.len() > 0
        invariant
            key_s@ == key@,
            rest@.len() <= orig.len(),
            rest@ == orig.subrange(orig.len() - rest@.len(), orig.len() as int),
            members_map(kept@) == members_map(orig.subrange(0, orig.len() - rest@.len())).remove(
                key@,
            ),
            found == (if members_map(orig.subrange(0, orig.len() - rest@.len())).contains_key(
                key@,
            ) {
                members_map(orig.subrange(0, orig.len() - rest@.len()))[key@]
            } else {
                JsonValue::Null
            }),
        decreases rest.len(),
    {
        let ghost done = orig.subrange(0, orig.len() - rest@.len());
        let ghost next = orig.subrange(0, orig.len() - rest@.len() + 1);
        let item = rest.remove(0);
        proof {
            assert(next =~= done.push(item));
            lemma_members_map_push(done, item);
            assert(rest@ =~= orig.subrange(orig.len() - rest@.len(), orig.len() as int));
        }
        if item.0 == key_s {
            found = item.1;
            proof {
                assert(members_map(next).remove(key@) =~= members_map(done).remove(key@));
            }
        } else {
            proof {
                lemma_members_map_push(kept@, item);
                assert(members_map(next).remove(key@) =~= members_map(kept@).insert(
                    item.0@,
                    item.1,
                ));
            }
            kept.push(item);
        }
    }
    proof {
        assert(orig.subrange(0, orig.len() as int) =~= orig);
    }
    (kept, found)
}


/// The character of a decimal digit.
pub open spec fn digit_char(d: nat) -> char {
    seq!['0', '1', '2', '3', '4', '5', '6', '7', '8', '9'][d as int]
}

/// The decimal digits of `n`, with no leading zeros.
pub open spec fn decimal(n: nat) -> Seq<char>
    decreases n,
{
    if n < 10 {
        seq![digit_char(n)]
    } else {
        decimal(n / 10).push(digit_char(n % 10))
    }
}

fn digit_text(d: u32) -> (r: &'static str)
    requires
        d < 10,
    ensures
        r@ == seq![digit_char(d as nat)],
{
    proof {
        reveal_strlit("0");
        reveal_strlit("1");
        reveal_strlit("2");
        reveal_strlit("3");
        reveal_strlit("4");
        reveal_strlit("5");
        reveal_strlit("6");
        reveal_strlit("7");
        reveal_strlit("8");
        reveal_strlit("9");
    }
    let r = match d {
        0 => "0",
        1 => "1",
        2 => "2",
        3 => "3",
        4 => "4",
        5 => "5",
        6 => "6",
        7 => "7",
        8 => "8",
        _ => "9",
    };
    assert(r@ =~= seq![digit_char(d as nat)]);
    r
}

/// The decimal text of `n`.
pub fn decimal_text(n: u32) -> (r: String)
    ensures
        r@ == decimal(n as nat),
{
    let mut m: u32 = n;
    let mut suffix = String::new();
    while m >= 10
        invariant
            decimal(n as nat) == decimal(m as nat) + suffix@,
        decreases m,
    {
        let d = digit_text(m % 10);
        let ghost prev = suffix@;
        suffix = String::from_str(d).concat(suffix.as_str());
        proof {
            assert(decimal(m as nat) == decimal((m / 10) as nat).push(digit_char((m % 10) as nat)));
            assert(decimal(m as nat) + prev =~= decimal((m / 10) as nat) + suffix@);
        }
        m = m / 10;
    }
    let r = String::from_str(digit_text(m)).concat(suffix.as_str());
    proof {
        assert(r@ =~= decimal(m as nat) + suffix@);
    }
    r
}

/// Whether `v` is a string whose text is `s`.
pub open spec fn is_text(v: JsonValue, s: Seq<char>) -> bool {
    v matches JsonValue::Str(t) && t@ == s
}

/// Whether `v` is a number written as `s`.
pub open spec fn is_number_text(v: JsonValue, s: Seq<char>) -> bool {
    v matches JsonValue::Number(t) && t@ == s
}

/// Whether the two field maps agree on every key outside `keys`.
pub open spec fn same_except(
    a: Map<Seq<char>, JsonValue>,
    b: Map<Seq<char>, JsonValue>,
    keys: Set<Seq<char>>,
) -> bool {
    forall|k: Seq<char>|
        !keys.contains(k) ==> (#[trigger] a.contains_key(k) <==> b.contains_key(k)) && (
        a.contains_key(k) ==> a[k] == b[k])
}

impl JsonValue {
    /// A string value with the given text.
    pub fn text(s: &str) -> (r: JsonValue)
        ensures
            is_text(r, s@),
    {
        JsonValue::Str(s.to_owned())
    }

    /// A number value holding the decimal text of `n`.
    pub fn unsigned(n: u32) -> (r: JsonValue)
        ensures
            is_number_text(r, decimal(n as nat)),
    {
        JsonValue::Number(decimal_text(n))
    }
}

impl JsonValue {
    /// Sets the member `key` of this value to `value`, inserting it where it
    /// is absent. A value that is not an object becomes an object first.
    pub fn set_member(&mut self, key: &str, value: JsonValue)
        ensures
            *final(self) is Object,
            fields(*final(self)) == fields(*old(self)).insert(key@, value),
    {
        let mut prev = JsonValue::Null;
        std::mem::swap(self, &mut prev);
        let members = match prev {
            JsonValue::Object(m) => m,
            _ => Vec::new(),
        };
        let ghost before = members@;
        let (mut rest, _) = take_key(members, key);
        let entry = (key.to_owned(), value);
        proof {
            lemma_members_map_push(rest@, entry);
            assert(members_map(before).remove(key@).insert(key@, value) =~= members_map(
                before,
            ).insert(key@, value));
        }
        rest.push(entry);
        *self = JsonValue::Object(rest);
    }

    /// Sets the member `key` inside the member `outer` of this value,
    /// creating `outer` as an object where it is absent or not an object.
    /// No other member of this value changes.
    pub fn set_nested(&mut self, outer: &str, key: &str, value: JsonValue)
        ensures
            *final(self) is Object,
            fields(*final(self)).contains_key(outer@),
            fields(*final(self)).remove(outer@) == fields(*old(self)).remove(outer@),
            fields(child(*final(self), outer@)) == fields(child(*old(self), outer@)).insert(
                key@,
                value,
            ),
    {
        let mut prev = JsonValue::Null;
        std::mem::swap(self, &mut prev);
        let members = match prev {
            JsonValue::Object(m) => m,
            _ => Vec::new(),
        };
        let ghost before = members@;
        let (mut rest, inner) = take_key(members, outer);
        let mut inner = inner;
        inner.set_member(key, value);
        let entry = (outer.to_owned(), inner);
        proof {
            lemma_members_map_push(rest@, entry);
            assert(members_map(rest@.push(entry)).remove(outer@) =~= members_map(before).remove(
                outer@,
            ));
        }
        rest.push(entry);
        *self = JsonValue::Object(rest);
    }
}

} // verus!
