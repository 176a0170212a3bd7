//! Configuration groups that hold either one unnamed value or several
//! values named by key (one per cloud profile, say).
//!
//! A named group keeps its entries in insertion order. It is well-formed
//! when its keys are unique (`keys_unique`), which `try_get_mut` and
//! `map_keys` keep; lookups find the first entry of a key.
use crate::text::push_str;
use vstd::prelude::*;

verus! {

/// A configuration group as stored: one value, or values named by key.
#[derive(Clone, Debug, PartialEq, Eq)]
pub enum MultiDto<T> {
    Multi(Vec<(String, T)>),
    Single(T),
}

/// A configuration group as read, with the name of its parent section.
#[derive(Clone, Debug, PartialEq, Eq)]
pub enum MultiReader<T> {
    Multi { map: Vec<(String, T)>, parent: &'static str },
    Single { value: T, parent: &'static str },
}

/// Why a value could not be found in a group.
#[derive(Debug, Clone, PartialEq, Eq)]
pub enum MultiError {
    /// A key was given, but the group holds one unnamed value.
    SingleNotMulti(String, String),
    /// No key was given, but the group holds named values.
    MultiNotSingle(String),
    /// The group holds no value under the key.
    MultiKeyNotFound(String, String),
}

/// The message for a key given to an unnamed group.
pub const SINGLE_NOT_MULTI_MESSAGE: &'static str = "You are trying to access a named field, but the fields are not named";

/// The message of an error, as characters.
pub open spec fn error_message(e: MultiError) -> Seq<char> {
    match e {
        MultiError::SingleNotMulti(_, _) => SINGLE_NOT_MULTI_MESSAGE@,
        MultiError::MultiNotSingle(parent) => "You need a name for the field "@ + parent@,
        MultiError::MultiKeyNotFound(parent, key) => "Key "@ + parent@ + "."@ + key@
            + " not found in multi-value group"@,
    }
}

impl MultiError {
    /// The message of the error.
    pub fn to_string(&self) -> (r: String)
        ensures
            r@ == error_message(*self),
    {
        match self {
            MultiError::SingleNotMulti(_, _) => SINGLE_NOT_MULTI_MESSAGE.to_owned(),
            MultiError::MultiNotSingle(parent) => {
                let mut s = "You need a name for the field ".to_owned();
                push_str(&mut s, parent.as_str());
                s
            },
            MultiError::MultiKeyNotFound(parent, key) => {
                let mut s = "Key ".to_owned();
                push_str(&mut s, parent.as_str());
                push_str(&mut s, ".");
                push_str(&mut s, key.as_str());
                push_str(&mut s, " not found in multi-value group");
                s
            },
        }
    }
}

/// No key appears twice among the entries.
pub open spec fn keys_unique<T>(entries: Seq<(String, T)>) -> bool {
    forall|i: int, j: int|
        0 <= i < entries.len() && 0 <= j < entries.len() && i != j ==> entries[i].0@
            != entries[j].0@
}

/// Some entry has the key.
pub open spec fn has_key<T>(entries: Seq<(String, T)>, key: Seq<char>) -> bool {
    exists|i: int| 0 <= i < entries.len() && entries[i].0@ == key
}

/// Entry `i` is the first with the key.
pub open spec fn first_with_key<T>(entries: Seq<(String, T)>, key: Seq<char>, i: int) -> bool {
    &&& 0 <= i < entries.len()
    &&& entries[i].0@ == key
    &&& forall|j: int| 0 <= j < i ==> entries[j].0@ != key
}

/// The key as characters, if any.
pub open spec fn key_view(key: Option<&str>) -> Option<Seq<char>> {
    match key {
        Some(k) => Some(k@),
        None => None,
    }
}

/// `value` is what `f` gives for the key.
pub open spec fn produced_by<U, F: Fn(Option<&str>) -> U>(f: F, key: Seq<char>, value: U) -> bool {
    exists|k: &str| k@ == key && f.ensures((Some(k),), value)
}

/// The index of the first entry with the key, if any.
fn find_key<T>(entries: &Vec<(String, T)>, key: &String) -> (r: Option<usize>)
    ensures
        r is None <==> !has_key(entries@, key@),
        r matches Some(i) ==> first_with_key(entries@, key@, i as int),
{
    let mut i: usize = 0;
    while i < entries.len()
        invariant
            i <= entries@.len(),
            forall|j: int| 0 <= j < i ==> entries@[j].0@ != key@,
        decreases entries@.len() - i,
    {
        if entries[i].0 == *key {
            return Some(i);
        }
        i = i + 1;
    }
    None
}

impl<T: Default> Default for MultiDto<T> {
    fn default() -> (r: Self)
        ensures
            r is Single,
    {
        MultiDto::Single(T::default())
    }
}

impl<T> MultiDto<T> {
    /// The keys of the group: `None` alone for an unnamed group, else each
    /// key in order.
    pub fn keys(&self) -> (r: Vec<Option<&str>>)
        ensures
            self matches MultiDto::Single(_) ==> r@.len() == 1 && r@[0] is None,
            self matches MultiDto::Multi(m) ==> r@.len() == m@.len() && forall|i: int|
                0 <= i < m@.len() ==> key_view(r@[i]) == Some(m@[i].0@),
    {
        let mut r: Vec<Option<&str>> = Vec::new();
        match self {
            MultiDto::Single(_) => {
                r.push(None);
            },
            MultiDto::Multi(m) => {
                let mut i: usize = 0;
                while i < m.len()
                    invariant
                        i <= m@.len(),
                        r@.len() == i,
                        forall|j: int| 0 <= j < i ==> key_view(r@[j]) == Some(m@[j].0@),
                    decreases m@.len() - i,
                {
                    r.push(Some(m[i].0.as_str()));
                    i = i + 1;
                }
            },
        }
        r
    }

    /// A reader of the same shape: `f` of each key (`None` for an unnamed
    /// group) becomes the value under it.
    pub fn map_keys<U, F: Fn(Option<&str>) -> U>(&self, f: F, parent: &'static str) -> (r:
        MultiReader<U>)
        requires
            forall|k: Option<&str>| f.requires((k,)),
        ensures
            self matches MultiDto::Single(_) ==> r matches MultiReader::Single { value, parent: p }
                && p == parent && f.ensures((None,), value),
            self matches MultiDto::Multi(m) ==> r matches MultiReader::Multi { map, parent: p }
                && p == parent && map@.len() == m@.len() && forall|i: int|
                #![trigger map@[i]]
                0 <= i < m@.len() ==> map@[i].0@ == m@[i].0@ && produced_by(
                    f,
                    m@[i].0@,
                    map@[i].1,
                ),
            self matches MultiDto::Multi(m) ==> (keys_unique(m@) ==> keys_unique(r->map@)),
    {
        match self {
            MultiDto::Single(_) => MultiReader::Single { value: f(None), parent },
            MultiDto::Multi(m) => {
                let mut map: Vec<(String, U)> = Vec::new();
                let mut i: usize = 0;
                while i < m.len()
                    invariant
                        i <= m@.len(),
                        map@.len() == i,
                        forall|k: Option<&str>| f.requires((k,)),
                        forall|j: int|
                            #![trigger map@[j]]
                            0 <= j < i ==> map@[j].0@ == m@[j].0@ && produced_by(
                                f,
                                m@[j].0@,
                                map@[j].1,
                            ),
                    decreases m@.len() - i,
                {
                    let key = m[i].0.as_str();
                    let value = f(Some(key));
                    proof {
                        assert(produced_by(f, m@[i as int].0@, value));
                    }
                    let name = m[i].0.clone();
                    let ghost before = map@;
                    map.push((name, value));
                    assert forall|j: int| #![trigger map@[j]] 0 <= j < i + 1 implies map@[j].0@ == m@[j].0@
                        && produced_by(f, m@[j].0@, map@[j].1) by {
                        if j < i {
                            assert(map@[j] == before[j]);
                            assert(produced_by(f, m@[j].0@, before[j].1));
                        }
                    }
                    i = i + 1;
                }
                MultiReader::Multi { map, parent }
            },
        }
    }
}

impl<T: Default + PartialEq> MultiDto<T> {
    /// Whether the group is the default one: an unnamed group whose value
    /// equals `T::default()`.
    pub fn is_default(&self) -> (r: bool)
        ensures
            r ==> self is Single,
    {
        match self {
            MultiDto::Single(v) => {
                let d = T::default();
                *v == d
            },
            MultiDto::Multi(_) => false,
        }
    }
}

impl<T: Default> MultiDto<T> {
    /// The value for `key`: the unnamed value when no key is given to an
    /// unnamed group, the value under the key in a named group.
    pub fn try_get(&self, key: Option<&str>, parent: &str) -> (r: Result<&T, MultiError>)
        ensures
            match (*self, key_view(key)) {
                (MultiDto::Single(v), None) => r matches Ok(x) && *x == v,
                (MultiDto::Multi(m), Some(k)) => if has_key(m@, k) {
                    r matches Ok(x) && exists|i: int|
                        first_with_key(m@, k, i) && *x == #[trigger] m@[i].1
                } else {
                    r matches Err(MultiError::MultiKeyNotFound(p, kk)) && p@ == parent@ && kk@
                        == k
                },
                (MultiDto::Multi(_), None) => r matches Err(MultiError::MultiNotSingle(p))
                    && p@ == parent@,
                (MultiDto::Single(_), Some(k)) => r matches Err(
                    MultiError::SingleNotMulti(p, kk),
                ) && p@ == parent@ && kk@ == k,
            },
    {
        match (self, key) {
            (MultiDto::Single(val), None) => Ok(val),
            (MultiDto::Multi(map), Some(key)) => {
                let owned = key.to_owned();
                match find_key(map, &owned) {
                    Some(i) => Ok(&map[i].1),
                    None => Err(MultiError::MultiKeyNotFound(parent.to_owned(), owned)),
                }
            },
            (MultiDto::Multi(_), None) => Err(MultiError::MultiNotSingle(parent.to_owned())),
            (MultiDto::Single(_), Some(key)) => Err(
                MultiError::SingleNotMulti(parent.to_owned(), key.to_owned()),
            ),
        }
    }
}

impl<T: Default> MultiDto<T> {
    /// Mutable access to the value for `key`, as `try_get` finds it; in a
    /// named group a missing key is first added with `T::default()`.
    pub fn try_get_mut(&mut self, key: Option<&str>, parent: &str) -> (r: Result<
        &mut T,
        MultiError,
    >)
        ensures
            (*old(self)) matches MultiDto::Multi(m) ==> (keys_unique(m@) ==> keys_unique(
                (*final(self))->Multi_0@,
            )),
            match (*old(self), key_view(key)) {
                (MultiDto::Single(v), None) => r is Ok && *r->Ok_0 == v && *final(self)
                    == MultiDto::<T>::Single(*final(r->Ok_0)),
                (MultiDto::Multi(m), Some(k)) => r is Ok && (*final(self)) is Multi && if has_key(
                    m@,
                    k,
                ) {
                    exists|i: int|
                        first_with_key(m@, k, i) && *r->Ok_0 == #[trigger] m@[i].1 
                            && (*final(self))->Multi_0@ == m@.update(i, (m@[i].0, *final(r->Ok_0)))
                } else {
                    &&& (*final(self))->Multi_0@.len() == m@.len() + 1
                    &&& (*final(self))->Multi_0@.drop_last() == m@
                    &&& (*final(self))->Multi_0@.last().0@ == k
                    &&& (*final(self))->Multi_0@.last().1 == *final(r->Ok_0)
                },
                (MultiDto::Multi(_), None) => r matches Err(MultiError::MultiNotSingle(p))
                    && p@ == parent@ && *final(self) == *old(self),
                (MultiDto::Single(_), Some(k)) => r matches Err(
                    MultiError::SingleNotMulti(p, kk),
                ) && p@ == parent@ && kk@ == k && *final(self) == *old(self),
            },
    {
        match self {
            MultiDto::Single(val) => match key {
                None => Ok(val),
                Some(k) => Err(MultiError::SingleNotMulti(parent.to_owned(), k.to_owned())),
            },
            MultiDto::Multi(map) => match key {
                Some(k) => {
                    let owned = k.to_owned();
                    match find_key(map, &owned) {
                        Some(i) => Ok(&mut map[i].1),
                        None => {
                            map.push((owned, T::default()));
                            let last = map.len() - 1;
                            Ok(&mut map[last].1)
                        },
                    }
                },
                None => Err(MultiError::MultiNotSingle(parent.to_owned())),
            },
        }
    }
}

impl<T> MultiReader<T> {
    /// The value for `key`, found as `MultiDto::try_get` finds it; errors
    /// name the reader's parent section.
    pub fn try_get(&self, key: Option<&str>) -> (r: Result<&T, MultiError>)
        ensures
            match (*self, key_view(key)) {
                (MultiReader::Single { value, .. }, None) => r matches Ok(x) && *x == value,
                (MultiReader::Multi { map, parent }, Some(k)) => if has_key(map@, k) {
                    r matches Ok(x) && exists|i: int|
                        first_with_key(map@, k, i) && *x == #[trigger] map@[i].1
                } else {
                    r matches Err(MultiError::MultiKeyNotFound(p, kk)) && p@ == parent@ && kk@
                        == k
                },
                (MultiReader::Multi { parent, .. }, None) => r matches Err(
                    MultiError::MultiNotSingle(p),
                ) && p@ == parent@,
                (MultiReader::Single { parent, .. }, Some(k)) => r matches Err(
                    MultiError::SingleNotMulti(p, kk),
                ) && p@ == parent@ && kk@ == k,
            },
    {
        match (self, key) {
            (MultiReader::Single { value, .. }, None) => Ok(value),
            (MultiReader::Multi { map, parent }, Some(key)) => {
                let owned = key.to_owned();
                match find_key(map, &owned) {
                    Some(i) => Ok(&map[i].1),
                    None => Err(MultiError::MultiKeyNotFound((*parent).to_owned(), owned)),
                }
            },
            (MultiReader::Multi { parent, .. }, None) => Err(
                MultiError::MultiNotSingle((*parent).to_owned()),
            ),
            (MultiReader::Single { parent, .. }, Some(key)) => Err(
                MultiError::SingleNotMulti((*parent).to_owned(), key.to_owned()),
            ),
        }
    }

    /// The keys of the reader: `None` alone when unnamed, else each key in
    /// order.
    pub fn keys(&self) -> (r: Vec<Option<&str>>)
        ensures
            self matches MultiReader::Single { .. } ==> r@.len() == 1 && r@[0] is None,
            self matches MultiReader::Multi { map, .. } ==> r@.len() == map@.len() && forall|
                i: int,
            |
                0 <= i < map@.len() ==> key_view(r@[i]) == Some(map@[i].0@),
    {
        let mut r: Vec<Option<&str>> = Vec::new();
        match self {
            MultiReader::Single { .. } => {
                r.push(None);
            },
            MultiReader::Multi { map, .. } => {
                let mut i: usize = 0;
                while i < map.len()
                    invariant
                        i <= map@.len(),
                        r@.len() == i,
                        forall|j: int| 0 <= j < i ==> key_view(r@[j]) == Some(map@[j].0@),
                    decreases map@.len() - i,
                {
                    r.push(Some(map[i].0.as_str()));
                    i = i + 1;
                }
            },
        }
        r
    }
}

} // verus!
