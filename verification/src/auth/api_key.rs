//! API keys and the validator that admits a caller by one.

use crate::text::comma_entries;
use crate::text::decimal_digits;
use crate::text::join_text;
use crate::text::range_starts_with;
use crate::text::same_text;
use crate::text::slice_text;
use crate::text::split_entries;
use crate::text::starts_with_text;
use crate::text::texts_of;
use crate::text::to_chars;
use crate::text::unsigned_text;
use vstd::prelude::*;

verus! {

/// An API key with what is known of it.
#[derive(Debug, Clone)]
pub struct ApiKey {
    pub key: String,
    pub name: Option<String>,
    pub rate_limit: Option<u32>,
}

/// What an API key is to hold.
pub struct KeyPlan {
    pub key: Seq<char>,
    pub name: Option<Seq<char>>,
    pub rate_limit: Option<u32>,
}

/// A variable of the environment: its name, its value, and what the value
/// gives when it is read as the JSON form of an API key, `None` where it is
/// no such form.
#[derive(Debug, Clone)]
pub struct EnvEntry {
    pub name: String,
    pub value: String,
    pub parsed: Option<ApiKey>,
}

/// Admits a caller by its API key.
#[derive(Debug)]
pub struct ApiKeyValidator {
    valid_keys: Vec<String>,
    keys_with_metadata: Vec<ApiKey>,
}

impl ApiKey {
    /// What the key holds.
    pub open spec fn plan(&self) -> KeyPlan {
        KeyPlan {
            key: self.key@,
            name: match self.name {
                Some(name) => Some(name@),
                None => None,
            },
            rate_limit: self.rate_limit,
        }
    }

    /// A key that holds what this one holds.
    pub fn duplicate(&self) -> (r: ApiKey)
        ensures
            r.plan() == self.plan(),
    {
        ApiKey {
            key: self.key.clone(),
            name: match &self.name {
                Some(name) => Some(name.clone()),
                None => None,
            },
            rate_limit: self.rate_limit,
        }
    }
}

/// What the keys of `keys` hold, in order.
pub open spec fn plans_of(keys: Seq<ApiKey>) -> Seq<KeyPlan> {
    Seq::new(keys.len(), |i: int| keys[i].plan())
}

/// The key texts of `plans`, as a set.
pub open spec fn planned_keys(plans: Seq<KeyPlan>) -> Set<Seq<char>> {
    Set::new(|key: Seq<char>| exists|i: int| 0 <= i < plans.len() && #[trigger] plans[i].key == key)
}

/// What the key of place `index` of a fixed list is to hold: the text of the
/// list, under the name `Static key` with its place, counted from 1.
pub open spec fn static_plan(key: Seq<char>, index: int) -> KeyPlan {
    KeyPlan {
        key,
        name: Some("Static key "@ + decimal_digits((index + 1) as nat)),
        rate_limit: None,
    }
}

/// What the keys of a fixed list are to hold.
pub open spec fn static_plans(keys: Seq<String>) -> Seq<KeyPlan> {
    Seq::new(keys.len(), |i: int| static_plan(keys[i]@, i))
}

/// What the key of a variable of the environment is to hold, if the
/// variable holds one: its name begins with `API_KEY_`. A value that
/// begins with `{` and is the JSON form of a key gives that key; any other
/// value is the key itself, under the name `Key` with the rest of the
/// variable's name.
pub open spec fn entry_plan(entry: EnvEntry) -> Option<KeyPlan> {
    if starts_with_text(entry.name@, "API_KEY_"@) {
        if starts_with_text(entry.value@, "{"@) && entry.parsed is Some {
            Some(entry.parsed->0.plan())
        } else {
            Some(
                KeyPlan {
                    key: entry.value@,
                    name: Some("Key "@ + entry.name@.skip("API_KEY_"@.len() as int)),
                    rate_limit: None,
                },
            )
        }
    } else {
        None
    }
}

/// What the keys of the variables `entries` are to hold, in the order of the
/// variables.
pub open spec fn entry_plans(entries: Seq<EnvEntry>) -> Seq<KeyPlan>
    decreases entries.len(),
{
    if entries.len() == 0 {
        Seq::empty()
    } else {
        match entry_plan(entries.last()) {
            Some(plan) => entry_plans(entries.drop_last()).push(plan),
            None => entry_plans(entries.drop_last()),
        }
    }
}

/// What the keys of a list of the older form are to hold: each entry that is
/// not empty is a key, under the name `Legacy key`.
pub open spec fn legacy_plans(entries: Seq<Seq<char>>) -> Seq<KeyPlan>
    decreases entries.len(),
{
    if entries.len() == 0 {
        Seq::empty()
    } else if entries.last().len() == 0 {
        legacy_plans(entries.drop_last())
    } else {
        legacy_plans(entries.drop_last()).push(
            KeyPlan { key: entries.last(), name: Some("Legacy key"@), rate_limit: None },
        )
    }
}

/// What the keys of an environment are to hold: those of its variables,
/// then those of the list of the older form, `API_KEYS`, where it is set.
pub open spec fn environment_plans(entries: Seq<EnvEntry>, legacy: Option<String>) -> Seq<
    KeyPlan,
> {
    match legacy {
        Some(list) => entry_plans(entries) + legacy_plans(comma_entries(list@)),
        None => entry_plans(entries),
    }
}

/// Whether one of `keys` is `key`.
fn holds(keys: &Vec<String>, key: &str) -> (r: bool)
    ensures
        r == texts_of(keys@).contains(key@),
{
    let mut i: usize = 0;
    while i < keys.len()
        invariant
            i <= keys.len(),
            forall|j: int| 0 <= j < i ==> texts_of(keys@)[j] != key@,
        decreases keys.len() - i,
    {
        if same_text(keys[i].as_str(), key) {
            assert(texts_of(keys@)[i as int] == key@);
            return true;
        }
        i += 1;
    }
    false
}

impl ApiKeyValidator {
    #[verifier::type_invariant]
    spec fn keys_are_distinct(&self) -> bool {
        texts_of(self.valid_keys@).no_duplicates()
    }

    /// The keys that are admitted.
    pub closed spec fn keys(&self) -> Set<Seq<char>> {
        texts_of(self.valid_keys@).to_set()
    }

    /// The keys with what is known of each, in the order in which they were
    /// loaded. A key that was loaded twice stands here twice.
    pub closed spec fn metadata(&self) -> Seq<ApiKey> {
        self.keys_with_metadata@
    }

    /// A validator without keys.
    fn empty() -> (r: ApiKeyValidator)
        ensures
            r.keys() == planned_keys(plans_of(r.metadata())),
            r.metadata().len() == 0,
    {
        let r = ApiKeyValidator { valid_keys: Vec::new(), keys_with_metadata: Vec::new() };
        r
    }

    /// Takes up `key`.
    fn take_up(&mut self, key: ApiKey)
        requires
            old(self).keys() == planned_keys(plans_of(old(self).metadata())),
        ensures
            final(self).keys() == planned_keys(plans_of(final(self).metadata())),
            final(self).metadata() == old(self).metadata().push(key),
    {
        proof {
            use_type_invariant(&*self);
        }
        let ghost before = texts_of(self.valid_keys@);
        let ghost plans = plans_of(self.keys_with_metadata@);
        let known = holds(&self.valid_keys, key.key.as_str());
        let mut valid_keys: Vec<String> = Vec::new();
        let mut keys_with_metadata: Vec<ApiKey> = Vec::new();
        std::mem::swap(&mut valid_keys, &mut self.valid_keys);
        std::mem::swap(&mut keys_with_metadata, &mut self.keys_with_metadata);
        if !known {
            valid_keys.push(key.key.clone());
            assert(texts_of(valid_keys@) =~= before.push(key.key@));
        }
        keys_with_metadata.push(key);
        proof {
            let after = texts_of(valid_keys@);
            let new_plans = plans_of(keys_with_metadata@);
            assert forall|k: Seq<char>| after.to_set().contains(k) == planned_keys(
                new_plans,
            ).contains(k) by {
                if after.to_set().contains(k) {
                    let i = choose|i: int| 0 <= i < after.len() && after[i] == k;
                    if i < before.len() {
                        assert(before.to_set().contains(k));
                        let j = choose|j: int| 0 <= j < plans.len() && #[trigger] plans[j].key == k;
                        assert(new_plans[j].key == k);
                    } else {
                        assert(new_plans[plans.len() as int].key == k);
                    }
                }
                if planned_keys(new_plans).contains(k) {
                    let j = choose|j: int| 0 <= j < new_plans.len() && #[trigger] new_plans[j].key == k;
                    if j < plans.len() {
                        assert(plans[j].key == k);
                        assert(before.to_set().contains(k));
                        let i = choose|i: int| 0 <= i < before.len() && before[i] == k;
                        assert(after[i] == k);
                    } else {
                        if !known {
                            assert(after[before.len() as int] == k);
                        }
                    }
                }
            }
        }
        self.valid_keys = valid_keys;
        self.keys_with_metadata = keys_with_metadata;
    }

    /// The validator that admits the keys of `keys` and no others.
    pub fn from_keys(keys: Vec<String>) -> (r: ApiKeyValidator)
        ensures
            r.keys() == texts_of(keys@).to_set(),
            plans_of(r.metadata()) == static_plans(keys@),
            r.keys() == planned_keys(plans_of(r.metadata())),
    {
        let mut validator = ApiKeyValidator::empty();
        let mut i: usize = 0;
        while i < keys.len()
            invariant
                i <= keys.len(),
                validator.keys() == planned_keys(plans_of(validator.metadata())),
                plans_of(validator.metadata()) == static_plans(keys@.take(i as int)),
            decreases keys.len() - i,
        {
            let ghost before = plans_of(validator.metadata());
            let mut name = String::from_str("Static key ");
            let place = unsigned_text((i + 1) as u64);
            name.append(place.as_str());
            let key = ApiKey { key: keys[i].clone(), name: Some(name), rate_limit: None };
            validator.take_up(key);
            assert(plans_of(validator.metadata()) =~= before.push(key.plan()));
            i += 1;
        }
        proof {
            assert(keys@.take(keys@.len() as int) =~= keys@);
            let plans = static_plans(keys@);
            assert forall|k: Seq<char>| planned_keys(plans).contains(k) == texts_of(
                keys@,
            ).to_set().contains(k) by {
                if planned_keys(plans).contains(k) {
                    let j = choose|j: int| 0 <= j < plans.len() && #[trigger] plans[j].key == k;
                    assert(texts_of(keys@)[j] == k);
                }
                if texts_of(keys@).to_set().contains(k) {
                    let j = choose|j: int| 0 <= j < keys@.len() && texts_of(keys@)[j] == k;
                    assert(plans[j].key == k);
                }
            }
        }
        validator
    }

    /// The validator that admits the keys of an environment: `entries` are
    /// its variables, `legacy` is the value of `API_KEYS`, the list of the
    /// older form, if that is set.
    pub fn from_env(entries: &Vec<EnvEntry>, legacy: &Option<String>) -> (r: ApiKeyValidator)
        ensures
            plans_of(r.metadata()) == environment_plans(entries@, *legacy),
            r.keys() == planned_keys(plans_of(r.metadata())),
    {
        let mut validator = ApiKeyValidator::empty();
        let prefix = to_chars("API_KEY_");
        let brace = to_chars("{");
        let mut i: usize = 0;
        while i < entries.len()
            invariant
                i <= entries.len(),
                prefix@ == "API_KEY_"@,
                brace@ == "{"@,
                validator.keys() == planned_keys(plans_of(validator.metadata())),
                plans_of(validator.metadata()) == entry_plans(entries@.take(i as int)),
            decreases entries.len() - i,
        {
            let ghost before = plans_of(validator.metadata());
            let entry = &entries[i];
            proof {
                let front = entries@.take(i + 1);
                assert(front.drop_last() =~= entries@.take(i as int));
            }
            let name = to_chars(entry.name.as_str());
            assert(name@.subrange(0, name@.len() as int) =~= name@);
            if range_starts_with(&name, 0, name.len(), &prefix) {
                let value = to_chars(entry.value.as_str());
                assert(value@.subrange(0, value@.len() as int) =~= value@);
                let json = range_starts_with(&value, 0, value.len(), &brace);
                let key = match &entry.parsed {
                    Some(parsed) if json => parsed.duplicate(),
                    _ => {
                        let suffix = slice_text(entry.name.as_str(), prefix.len(), name.len());
                        ApiKey {
                            key: entry.value.clone(),
                            name: Some(join_text("Key ", suffix.as_str())),
                            rate_limit: None,
                        }
                    },
                };
                validator.take_up(key);
            }
            i += 1;
        }
        assert(entries@.take(entries@.len() as int) =~= entries@);
        match legacy {
            Some(list) => {
                let parts = split_entries(list.as_str());
                let ghost first = plans_of(validator.metadata());
                let mut j: usize = 0;
                while j < parts.len()
                    invariant
                        j <= parts.len(),
                        validator.keys() == planned_keys(plans_of(validator.metadata())),
                        plans_of(validator.metadata()) == first + legacy_plans(
                            texts_of(parts@).take(j as int),
                        ),
                    decreases parts.len() - j,
                {
                    let ghost before = plans_of(validator.metadata());
                    proof {
                        let front = texts_of(parts@).take(j + 1);
                        assert(front.drop_last() =~= texts_of(parts@).take(j as int));
                    }
                    if parts[j].as_str().unicode_len() > 0 {
                        let key = ApiKey {
                            key: parts[j].clone(),
                            name: Some(String::from_str("Legacy key")),
                            rate_limit: None,
                        };
                        validator.take_up(key);
                        assert(plans_of(validator.metadata()) =~= before.push(key.plan()));
                    }
                    j += 1;
                }
                assert(texts_of(parts@).take(parts@.len() as int) =~= texts_of(parts@));
            },
            None => {},
        }
        validator
    }

    /// Whether `key` is admitted.
    pub fn validate(&self, key: &str) -> (r: bool)
        ensures
            r == self.keys().contains(key@),
    {
        holds(&self.valid_keys, key)
    }

    /// What is known of `key`: the first of the loaded keys that has its
    /// text.
    pub fn get_key_metadata(&self, key: &str) -> (r: Option<&ApiKey>)
        ensures
            match r {
                Some(found) => exists|i: int|
                    0 <= i < self.metadata().len() && #[trigger] self.metadata()[i] == *found
                        && found.key@ == key@ && forall|j: int|
                        0 <= j < i ==> (#[trigger] self.metadata()[j]).key@ != key@,
                None => forall|i: int|
                    0 <= i < self.metadata().len() ==> (#[trigger] self.metadata()[i]).key@ != key@,
            },
    {
        let mut i: usize = 0;
        while i < self.keys_with_metadata.len()
            invariant
                i <= self.keys_with_metadata.len(),
                forall|j: int| 0 <= j < i ==> (#[trigger] self.keys_with_metadata@[j]).key@ != key@,
            decreases self.keys_with_metadata.len() - i,
        {
            if same_text(self.keys_with_metadata[i].key.as_str(), key) {
                return Some(&self.keys_with_metadata[i]);
            }
            i += 1;
        }
        None
    }

    /// The number of keys that are admitted.
    pub fn key_count(&self) -> (r: usize)
        ensures
            r == self.keys().len(),
    {
        proof {
            use_type_invariant(self);
            texts_of(self.valid_keys@).unique_seq_to_set();
        }
        self.valid_keys.len()
    }

    /// Whether any key is admitted.
    pub fn has_keys(&self) -> (r: bool)
        ensures
            r == (self.keys().len() > 0),
    {
        self.key_count() > 0
    }

    /// Puts the keys of an environment in the place of those that were
    /// admitted: see `from_env`.
    pub fn reload(&mut self, entries: &Vec<EnvEntry>, legacy: &Option<String>)
        ensures
            plans_of(final(self).metadata()) == environment_plans(entries@, *legacy),
            final(self).keys() == planned_keys(plans_of(final(self).metadata())),
    {
        *self = Self::from_env(entries, legacy);
    }
}

} // verus!
