//! A JSON value as plain data, with the lookups that the claim checks need.
//! A number is kept as its decimal text.
use vstd::prelude::*;
use vstd::string::*;
use crate::text::{str_eq, texts, to_chars};

verus! {

/// One member of a JSON object.
#[derive(Debug, PartialEq, Eq)]
pub struct Member {
    pub name: String,
    pub value: Json,
}

/// A JSON value.
#[derive(Debug, PartialEq, Eq)]
pub enum Json {
    Null,
    Bool(bool),
    Number(String),
    Text(String),
    Array(Vec<Json>),
    Object(Vec<Member>),
}

/// What a member of a JSON object holds.
pub struct MemberView {
    pub name: Seq<char>,
    pub value: JsonView,
}

/// What a JSON value holds.
pub enum JsonView {
    Null,
    Bool(bool),
    Number(Seq<char>),
    Text(Seq<char>),
    Array(Seq<JsonView>),
    Object(Seq<MemberView>),
}

impl View for Json {
    type V = JsonView;

    open spec fn view(&self) -> JsonView
        decreases self,
    {
        match self {
            Json::Null => JsonView::Null,
            Json::Bool(b) => JsonView::Bool(*b),
            Json::Number(n) => JsonView::Number(n@),
            Json::Text(t) => JsonView::Text(t@),
            Json::Array(items) => JsonView::Array(
                Seq::new(
                    items@.len(),
                    |i: int|
                        if 0 <= i < items@.len() {
                            items@[i].view()
                        } else {
                            JsonView::Null
                        },
                ),
            ),
            Json::Object(members) => JsonView::Object(
                Seq::new(
                    members@.len(),
                    |i: int|
                        if 0 <= i < members@.len() {
                            MemberView { name: members@[i].name@, value: members@[i].value.view() }
                        } else {
                            MemberView { name: Seq::<char>::empty(), value: JsonView::Null }
                        },
                ),
            ),
        }
    }
}

/// The value of the last member named `key`.
pub open spec fn find_member(members: Seq<MemberView>, key: Seq<char>) -> Option<JsonView>
    decreases members.len(),
{
    if members.len() == 0 {
        None
    } else if members.last().name == key {
        Some(members.last().value)
    } else {
        find_member(members.drop_last(), key)
    }
}

/// The texts of a list whose elements are all strings.
pub open spec fn all_texts(items: Seq<JsonView>) -> Option<Seq<Seq<char>>>
    decreases items.len(),
{
    if items.len() == 0 {
        Some(Seq::empty())
    } else {
        match (all_texts(items.drop_last()), items.last()) {
            (Some(head), JsonView::Text(t)) => Some(head.push(t)),
            _ => None,
        }
    }
}

/// The number that a text of decimal digits stands for; nothing for any other text.
pub open spec fn decimal(s: Seq<char>) -> Option<nat>
    decreases s.len(),
{
    if s.len() == 0 {
        None
    } else if !('0' <= s.last() <= '9') {
        None
    } else if s.len() == 1 {
        Some((s.last() as nat - '0' as nat) as nat)
    } else {
        match decimal(s.drop_last()) {
            Some(head) => Some((head * 10 + (s.last() as nat - '0' as nat)) as nat),
            None => None,
        }
    }
}

impl JsonView {
    /// The member `key` of an object; nothing for any other value.
    pub open spec fn get(self, key: Seq<char>) -> Option<JsonView> {
        match self {
            JsonView::Object(members) => find_member(members, key),
            _ => None,
        }
    }

    /// The value reached by following `path` member by member.
    pub open spec fn at(self, path: Seq<Seq<char>>) -> Option<JsonView>
        decreases path.len(),
    {
        if path.len() == 0 {
            Some(self)
        } else {
            match self.get(path[0]) {
                Some(next) => next.at(path.drop_first()),
                None => None,
            }
        }
    }

    /// The element at `index` of a list; nothing for any other value and
    /// beyond the end of the list.
    pub open spec fn item(self, index: int) -> Option<JsonView> {
        match self {
            JsonView::Array(items) => if 0 <= index < items.len() {
                Some(items[index])
            } else {
                None
            },
            _ => None,
        }
    }

    /// The characters of a string; nothing for any other value.
    pub open spec fn text(self) -> Option<Seq<char>> {
        match self {
            JsonView::Text(t) => Some(t),
            _ => None,
        }
    }

    /// The texts of a list of strings; nothing for any other value.
    pub open spec fn text_list(self) -> Option<Seq<Seq<char>>> {
        match self {
            JsonView::Array(items) => all_texts(items),
            _ => None,
        }
    }

    /// The value of an unsigned integer that fits 64 bits; nothing for any other value.
    pub open spec fn unsigned(self) -> Option<u64> {
        match self {
            JsonView::Number(n) => match decimal(n) {
                Some(v) => if v <= u64::MAX {
                    Some(v as u64)
                } else {
                    None
                },
                None => None,
            },
            _ => None,
        }
    }
}

/// The view of an object holds the view of each member, in order.
pub proof fn lemma_object_view(j: Json)
    requires
        j is Object,
    ensures
        j@ is Object,
        j@->Object_0.len() == j->Object_0@.len(),
        forall|i: int|
            0 <= i < j->Object_0@.len() ==> #[trigger] j@->Object_0[i] == (MemberView {
                name: j->Object_0@[i].name@,
                value: j->Object_0@[i].value@,
            }),
{
}

/// The view of a list holds the view of each element, in order.
pub proof fn lemma_array_view(j: Json)
    requires
        j is Array,
    ensures
        j@ is Array,
        j@->Array_0.len() == j->Array_0@.len(),
        forall|i: int| 0 <= i < j->Array_0@.len() ==> #[trigger] j@->Array_0[i] == j->Array_0@[i]@,
{
}

impl Member {
    /// The member `name` with the value `value`.
    pub fn new(name: &str, value: Json) -> (m: Member)
        ensures
            m.name@ == name@,
            m.value == value,
    {
        Member { name: String::from_str(name), value }
    }
}

impl Json {
    /// A JSON string.
    pub fn text(value: &str) -> (j: Json)
        ensures
            j@ == JsonView::Text(value@),
    {
        Json::Text(String::from_str(value))
    }

    /// A JSON list of strings.
    pub fn text_list(values: &Vec<String>) -> (j: Json)
        ensures
            j@ == JsonView::Array(texts(values@).map_values(|t: Seq<char>| JsonView::Text(t))),
    {
        let mut items: Vec<Json> = Vec::new();
        let mut i: usize = 0;
        while i < values.len()
            invariant
                i <= values.len(),
                items@.len() == i,
                forall|k: int| 0 <= k < i ==> (#[trigger] items@[k])@ == JsonView::Text(values@[k]@),
            decreases values.len() - i,
        {
            items.push(Json::Text(values[i].clone()));
            i = i + 1;
        }
        let j = Json::Array(items);
        proof {
            lemma_array_view(j);
        }
        assert(j@->Array_0 =~= texts(values@).map_values(|t: Seq<char>| JsonView::Text(t)));
        j
    }

    /// The member `key` of an object; nothing for any other value. Where several
    /// members have that name, the last one counts.
    pub fn get(&self, key: &str) -> (r: Option<&Json>)
        ensures
            match r {
                Some(found) => self@.get(key@) == Some(found@),
                None => self@.get(key@).is_none(),
            },
    {
        match self {
            Json::Object(members) => {
                let ghost all = self@->Object_0;
                let mut i: usize = members.len();
                proof {
                    lemma_object_view(*self);
                }
                assert(all.take(i as int) == all);
                while i > 0
                    invariant
                        i <= members.len(),
                        all == self@->Object_0,
                        *self == Json::Object(*members),
                        all.len() == members@.len(),
                        forall|k: int|
                            0 <= k < members@.len() ==> #[trigger] all[k] == (MemberView {
                                name: members@[k].name@,
                                value: members@[k].value@,
                            }),
                        find_member(all, key@) == find_member(all.take(i as int), key@),
                    decreases i,
                {
                    let m = &members[i - 1];
                    assert(all.take(i as int).last() == all[i - 1]);
                    assert(all.take(i as int).drop_last() == all.take(i - 1));
                    if str_eq(m.name.as_str(), key) {
                        return Some(&m.value);
                    }
                    i = i - 1;
                }
                None
            },
            _ => None,
        }
    }

    /// The element at `index` of a list; nothing for any other value and
    /// beyond the end of the list.
    pub fn item(&self, index: usize) -> (r: Option<&Json>)
        ensures
            match r {
                Some(found) => self@.item(index as int) == Some(found@),
                None => self@.item(index as int).is_none(),
            },
    {
        match self {
            Json::Array(items) => {
                proof {
                    lemma_array_view(*self);
                }
                if index < items.len() {
                    Some(&items[index])
                } else {
                    None
                }
            },
            _ => None,
        }
    }

    /// The characters of a string; nothing for any other value.
    pub fn as_text(&self) -> (r: Option<&String>)
        ensures
            match r {
                Some(t) => self@.text() == Some(t@),
                None => self@.text().is_none(),
            },
    {
        match self {
            Json::Text(t) => Some(t),
            _ => None,
        }
    }

    /// The texts of a list of strings; nothing for any other value.
    pub fn as_text_list(&self) -> (r: Option<Vec<String>>)
        ensures
            match r {
                Some(list) => self@.text_list() == Some(texts(list@)),
                None => self@.text_list().is_none(),
            },
    {
        match self {
            Json::Array(items) => {
                let ghost all = self@->Array_0;
                let mut out: Vec<String> = Vec::new();
                let mut i: usize = 0;
                proof {
                    lemma_array_view(*self);
                }
                assert(all.take(0) =~= Seq::<JsonView>::empty());
                assert(texts(out@) =~= Seq::<Seq<char>>::empty());
                while i < items.len()
                    invariant
                        i <= items.len(),
                        all == self@->Array_0,
                        *self == Json::Array(*items),
                        all.len() == items@.len(),
                        forall|k: int| 0 <= k < items@.len() ==> #[trigger] all[k] == items@[k]@,
                        all_texts(all.take(i as int)) == Some(texts(out@)),
                    decreases items.len() - i,
                {
                    assert(all.take(i + 1).drop_last() == all.take(i as int));
                    assert(all.take(i + 1).last() == items@[i as int]@);
                    match &items[i] {
                        Json::Text(t) => {
                            let ghost before = out@;
                            out.push(t.clone());
                            assert(texts(out@) =~= texts(before).push(t@));
                        },
                        _ => {
                            proof {
                                lemma_all_texts_prefix(all, i + 1);
                            }
                            return None;
                        },
                    }
                    i = i + 1;
                }
                assert(all.take(i as int) == all);
                Some(out)
            },
            _ => None,
        }
    }

    /// The value of an unsigned integer that fits 64 bits; nothing for any other value.
    pub fn as_unsigned(&self) -> (r: Option<u64>)
        ensures
            r == self@.unsigned(),
    {
        match self {
            Json::Number(n) => parse_decimal(n.as_str()),
            _ => None,
        }
    }
}

/// Where a prefix of a list holds something other than a string, so does the list.
pub proof fn lemma_all_texts_prefix(items: Seq<JsonView>, n: int)
    requires
        0 <= n <= items.len(),
        all_texts(items.take(n)) is None,
    ensures
        all_texts(items) is None,
    decreases items.len() - n,
{
    if n < items.len() {
        assert(items.take(n + 1).drop_last() == items.take(n));
        lemma_all_texts_prefix(items, n + 1);
    } else {
        assert(items.take(n) == items);
    }
}

/// The number that a text of decimal digits stands for, where it fits 64 bits.
pub fn parse_decimal(s: &str) -> (r: Option<u64>)
    ensures
        r == match decimal(s@) {
            Some(v) => if v <= u64::MAX {
                Some(v as u64)
            } else {
                None
            },
            None => None,
        },
{
    let chars = to_chars(s);
    if chars.len() == 0 {
        return None;
    }
    let mut value: u64 = 0;
    let mut i: usize = 0;
    while i < chars.len()
        invariant
            i <= chars.len(),
            chars@ == s@,
            chars.len() > 0,
            i > 0 ==> decimal(s@.take(i as int)) == Some(value as nat),
            i == 0 ==> value == 0,
        decreases chars.len() - i,
    {
        let c = chars[i];
        assert(s@.take(i + 1).drop_last() == s@.take(i as int));
        assert(s@.take(i + 1).last() == c);
        if c < '0' || c > '9' {
            proof {
                lemma_decimal_prefix(s@, i + 1);
            }
            return None;
        }
        let digit: u64 = (c as u32 - '0' as u32) as u64;
        if value > (u64::MAX - digit) / 10 {
            proof {
                assert(value * 10 + digit > u64::MAX) by (nonlinear_arith)
                    requires
                        value > (u64::MAX - digit) / 10,
                        digit <= 9,
                ;
                assert(decimal(s@.take(i + 1)) is Some ==> decimal(s@.take(i + 1))->0 > u64::MAX);
                lemma_decimal_large(s@, i + 1);
            }
            return None;
        }
        assert(value * 10 + digit <= u64::MAX) by (nonlinear_arith)
            requires
                value <= (u64::MAX - digit) / 10,
                digit <= 9,
        ;
        value = value * 10 + digit;
        i = i + 1;
    }
    assert(s@.take(i as int) == s@);
    Some(value)
}

/// Where a prefix is no decimal number, neither is the text.
pub proof fn lemma_decimal_prefix(s: Seq<char>, n: int)
    requires
        0 < n <= s.len(),
        decimal(s.take(n)) is None,
    ensures
        decimal(s) is None,
    decreases s.len() - n,
{
    if n < s.len() {
        assert(s.take(n + 1).drop_last() == s.take(n));
        lemma_decimal_prefix(s, n + 1);
    } else {
        assert(s.take(n) == s);
    }
}

/// Where a prefix stands for more than 64 bits hold, the text stands for no
/// smaller number.
pub proof fn lemma_decimal_large(s: Seq<char>, n: int)
    requires
        0 < n <= s.len(),
        decimal(s.take(n)) is Some ==> decimal(s.take(n))->0 > u64::MAX,
    ensures
        decimal(s) is Some ==> decimal(s)->0 > u64::MAX,
    decreases s.len() - n,
{
    if n < s.len() {
        assert(s.take(n + 1).drop_last() == s.take(n));
        lemma_decimal_large(s, n + 1);
    } else {
        assert(s.take(n) == s);
    }
}

} // verus!
