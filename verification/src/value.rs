//! The dynamically typed configuration value: the shape in which parsed
//! configuration text and page front matter reach the library, and the
//! table operations the workers read it with.
use vstd::prelude::*;

verus! {

/// A structured configuration value: one node of the tree that a parsed
/// configuration file or a page's front matter produces.
///
/// Float and datetime values are carried as their text form: the library
/// never computes with them, it only passes them on to the template data.
#[derive(Debug, PartialEq, Eq)]
pub enum ConfigValue {
    Str(String),
    Int(i64),
    Bool(bool),
    Float(String),
    Datetime(String),
    Arr(Vec<ConfigValue>),
    Table(Vec<(String, ConfigValue)>),
}

/// A table: string keys mapped to values, unique keys, in the order the
/// parser delivered them (lexicographic by key for parsed text).
pub type Table = Vec<(String, ConfigValue)>;

/// The mathematical shape of a `ConfigValue`: the same tree over sequences and
/// unbounded integers, with every `String` replaced by its character view.
pub enum ValModel {
    Str(Seq<char>),
    Int(int),
    Bool(bool),
    Float(Seq<char>),
    Datetime(Seq<char>),
    Arr(Seq<ValModel>),
    Table(Seq<(Seq<char>, ValModel)>),
}

/// The model of a value.
pub open spec fn model(v: ConfigValue) -> ValModel
    decreases v,
{
    match v {
        ConfigValue::Str(s) => ValModel::Str(s@),
        ConfigValue::Int(i) => ValModel::Int(i as int),
        ConfigValue::Bool(b) => ValModel::Bool(b),
        ConfigValue::Float(s) => ValModel::Float(s@),
        ConfigValue::Datetime(s) => ValModel::Datetime(s@),
        ConfigValue::Arr(items) => ValModel::Arr(arr_model(items@)),
        ConfigValue::Table(entries) => ValModel::Table(tab_model(entries@)),
    }
}

/// The models of the elements of an array, in order.
pub open spec fn arr_model(items: Seq<ConfigValue>) -> Seq<ValModel>
    decreases items,
{
    if items.len() == 0 {
        Seq::empty()
    } else {
        arr_model(items.drop_last()).push(model(items.last()))
    }
}

/// The models of the entries of a table, in order.
pub open spec fn tab_model(entries: Seq<(String, ConfigValue)>) -> Seq<(Seq<char>, ValModel)>
    decreases entries,
{
    if entries.len() == 0 {
        Seq::empty()
    } else {
        tab_model(entries.drop_last()).push(
            (entries.last().0@, model(entries.last().1)),
        )
    }
}

/// What looking a key up in a table yields: the value of the first entry
/// whose key matches, if any.
pub open spec fn tab_find(t: Seq<(Seq<char>, ValModel)>, key: Seq<char>) -> Option<ValModel>
    decreases t.len(),
{
    if t.len() == 0 {
        None
    } else if t[0].0 == key {
        Some(t[0].1)
    } else {
        tab_find(t.drop_first(), key)
    }
}

/// The string a key holds in a table, if it is present and holds a string.
pub open spec fn tab_find_str(t: Seq<(Seq<char>, ValModel)>, key: Seq<char>) -> Option<
    Seq<char>,
> {
    match tab_find(t, key) {
        Some(ValModel::Str(s)) => Some(s),
        _ => None,
    }
}

/// Setting a key: the first entry with that key is replaced, and a missing
/// key is appended at the end.
pub open spec fn tab_set(
    t: Seq<(Seq<char>, ValModel)>,
    key: Seq<char>,
    val: ValModel,
) -> Seq<(Seq<char>, ValModel)>
    decreases t.len(),
{
    if t.len() == 0 {
        seq![(key, val)]
    } else if t[0].0 == key {
        seq![(key, val)] + t.drop_first()
    } else {
        seq![t[0]] + tab_set(t.drop_first(), key, val)
    }
}

/// The model of an array has one element per value, in order.
pub proof fn lemma_arr_model_index(s: Seq<ConfigValue>)
    ensures
        arr_model(s).len() == s.len(),
        forall|k: int| 0 <= k < s.len() ==> arr_model(s)[k] == model(s[k]),
    decreases s.len(),
{
    if s.len() > 0 {
        lemma_arr_model_index(s.drop_last());
        assert forall|k: int| 0 <= k < s.len() implies arr_model(s)[k] == model(s[k]) by {
            if k < s.len() - 1 {
                assert(s.drop_last()[k] == s[k]);
            }
        }
    }
}

/// The model of a table has one entry per entry, in order, each the pair
/// of the key's characters and the value's model.
pub proof fn lemma_tab_model_index(s: Seq<(String, ConfigValue)>)
    ensures
        tab_model(s).len() == s.len(),
        forall|k: int| 0 <= k < s.len() ==> tab_model(s)[k] == (s[k].0@, model(s[k].1)),
    decreases s.len(),
{
    if s.len() > 0 {
        lemma_tab_model_index(s.drop_last());
        assert forall|k: int| 0 <= k < s.len() implies tab_model(s)[k] == (
            s[k].0@,
            model(s[k].1),
        ) by {
            if k < s.len() - 1 {
                assert(s.drop_last()[k] == s[k]);
            }
        }
    }
}

/// Looks `key` up in the entries from position `i` on: the first entry
/// whose key matches.
fn get_from<'a>(entries: &'a Vec<(String, ConfigValue)>, key: &str, i: usize) -> (r: Option<&'a ConfigValue>)
    requires
        i <= entries@.len(),
    ensures
        match r {
            Some(v) => tab_find(tab_model(entries@).skip(i as int), key@) == Some(model(*v)),
            None => tab_find(tab_model(entries@).skip(i as int), key@) is None,
        },
    decreases entries@.len() - i,
{
    proof {
        lemma_tab_model_index(entries@);
    }
    if i < entries.len() {
        proof {
            let tail = tab_model(entries@).skip(i as int);
            assert(tail[0] == (entries@[i as int].0@, model(entries@[i as int].1)));
            assert(tail.drop_first() =~= tab_model(entries@).skip(i + 1));
        }
        if crate::text::str_eq(entries[i].0.as_str(), key) {
            Some(&entries[i].1)
        } else {
            get_from(entries, key, i + 1)
        }
    } else {
        proof {
            assert(tab_model(entries@).skip(i as int) =~= Seq::<(Seq<char>, ValModel)>::empty());
        }
        None
    }
}

/// Looks `key` up in a table.
pub fn table_get<'a>(entries: &'a Table, key: &str) -> (r: Option<&'a ConfigValue>)
    ensures
        match r {
            Some(v) => tab_find(tab_model(entries@), key@) == Some(model(*v)),
            None => tab_find(tab_model(entries@), key@) is None,
        },
{
    proof {
        assert(tab_model(entries@).skip(0) =~= tab_model(entries@));
    }
    get_from(entries, key, 0)
}

/// The string `key` holds in a table, or `None` when it is missing or
/// holds something other than a string.
pub fn table_get_str<'a>(entries: &'a Table, key: &str) -> (r: Option<&'a String>)
    ensures
        match r {
            Some(s) => tab_find_str(tab_model(entries@), key@) == Some(s@),
            None => tab_find_str(tab_model(entries@), key@) is None,
        },
{
    match table_get(entries, key) {
        Some(v) => match v {
            ConfigValue::Str(s) => Some(s),
            _ => None,
        },
        None => None,
    }
}

/// Sets `key` in the entries from position `i` on: replaces the first
/// entry whose key matches, or appends a new one.
fn set_from(entries: &mut Vec<(String, ConfigValue)>, key: String, val: ConfigValue, i: usize)
    requires
        i <= old(entries)@.len(),
    ensures
        tab_model(final(entries)@) == tab_model(old(entries)@).take(i as int) + tab_set(
            tab_model(old(entries)@).skip(i as int),
            key@,
            model(val),
        ),
    decreases old(entries)@.len() - i,
{
    proof {
        lemma_tab_model_index(entries@);
    }
    let ghost before = entries@;
    if i < entries.len() {
        proof {
            let tail = tab_model(before).skip(i as int);
            assert(tail[0] == (before[i as int].0@, model(before[i as int].1)));
            assert(tail.drop_first() =~= tab_model(before).skip(i + 1));
        }
        if crate::text::str_eq(entries[i].0.as_str(), key.as_str()) {
            entries.set(i, (key, val));
            proof {
                lemma_tab_model_index(entries@);
                assert(tab_model(entries@) =~= tab_model(before).take(i as int) + tab_set(
                    tab_model(before).skip(i as int),
                    key@,
                    model(val),
                ));
            }
        } else {
            set_from(entries, key, val, i + 1);
            proof {
                assert(tab_model(before).take(i + 1) =~= tab_model(before).take(i as int) + seq![
                    tab_model(before)[i as int],
                ]);
                assert(tab_model(entries@) =~= tab_model(before).take(i as int) + tab_set(
                    tab_model(before).skip(i as int),
                    key@,
                    model(val),
                ));
            }
        }
    } else {
        entries.push((key, val));
        proof {
            lemma_tab_model_index(entries@);
            assert(tab_model(before).skip(i as int) =~= Seq::<(Seq<char>, ValModel)>::empty());
            assert(tab_model(entries@) =~= tab_model(before).take(i as int) + tab_set(
                tab_model(before).skip(i as int),
                key@,
                model(val),
            ));
        }
    }
}

/// Sets `key` to `val` in a table: the first entry with that key is
/// replaced, and a missing key is appended at the end.
pub fn table_set(entries: &mut Table, key: String, val: ConfigValue)
    ensures
        tab_model(final(entries)@) == tab_set(tab_model(old(entries)@), key@, model(val)),
{
    proof {
        assert(tab_model(entries@).skip(0) =~= tab_model(entries@));
        assert(tab_model(entries@).take(0) =~= Seq::<(Seq<char>, ValModel)>::empty());
    }
    set_from(entries, key, val, 0);
}

} // verus!
