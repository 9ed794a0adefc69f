//! Secrets of an app, held in memory with where each came from.
use vstd::prelude::*;
use crate::keyed::KeyedList;
use crate::text::joined;
use vstd::string::{StrSliceExecFns, StringSliceAdditionalSpecFns};

verus! {

/// Where a secret came from.
#[derive(Debug, Clone, Copy, PartialEq, Eq, Structural)]
pub enum SecretSource {
    Environment,
    File,
    Memory,
}

/// A secret value with its source.
#[derive(Debug)]
pub struct Secret {
    value: String,
    source: SecretSource,
}

/// `n` stars.
pub open spec fn stars(n: nat) -> Seq<char>
    decreases n,
{
    if n == 0 {
        Seq::empty()
    } else {
        stars((n - 1) as nat).push('*')
    }
}

/// The length of a text in UTF-8 bytes.
pub open spec fn byte_len(s: Seq<char>) -> nat {
    vstd::utf8::encode_utf8(s).len()
}

/// Whether a text can be masked: at most two bytes long, or its first and
/// last characters are one byte each (the mask keeps those two bytes).
pub open spec fn maskable(s: Seq<char>) -> bool {
    byte_len(s) <= 2 || (s.len() >= 2 && (s[0] as u32) < 128 && (s[s.len() - 1] as u32) < 128)
}

/// A text with its first and last bytes kept and one star for every other
/// byte; a text of at most two bytes is all stars, one per byte.
pub open spec fn masked_text(s: Seq<char>) -> Seq<char> {
    if byte_len(s) <= 2 {
        stars(byte_len(s))
    } else {
        seq![s[0]] + stars((byte_len(s) - 2) as nat) + seq![s[s.len() - 1]]
    }
}

/// `n` stars as a string.
fn star_string(n: usize) -> (r: String)
    ensures
        r@ == stars(n as nat),
{
    let mut s = String::new();
    let mut i: usize = 0;
    while i < n
        invariant
            i <= n,
            s@ == stars(i as nat),
        decreases n - i,
    {
        proof {
            reveal_strlit("*");
        }
        s.append("*");
        i = i + 1;
    }
    s
}

/// The texts joined with a separator between each two.
pub open spec fn join_texts(parts: Seq<Seq<char>>, sep: Seq<char>) -> Seq<char>
    decreases parts.len(),
{
    if parts.len() == 0 {
        Seq::empty()
    } else if parts.len() == 1 {
        parts[0]
    } else {
        join_texts(parts.drop_last(), sep) + sep + parts.last()
    }
}

/// The strings joined with a separator between each two.
pub fn join(parts: &Vec<String>, sep: &str) -> (r: String)
    ensures
        r@ == join_texts(crate::element::strings_view(parts@), sep@),
{
    let ghost v = crate::element::strings_view(parts@);
    let mut s = String::new();
    let mut i: usize = 0;
    while i < parts.len()
        invariant
            i <= parts@.len(),
            v == crate::element::strings_view(parts@),
            s@ == join_texts(v.subrange(0, i as int), sep@),
        decreases parts@.len() - i,
    {
        assert(v.subrange(0, i + 1).drop_last() =~= v.subrange(0, i as int));
        if i > 0 {
            s.append(sep);
        }
        s.append(parts[i].as_str());
        proof {
            if i == 0 {
                assert(s@ =~= v.subrange(0, 1)[0]);
            }
        }
        i = i + 1;
    }
    assert(v.subrange(0, parts@.len() as int) =~= v);
    s
}

impl Secret {
    /// The secret's value.
    pub closed spec fn spec_value(&self) -> Seq<char> {
        self.value@
    }

    /// Where it came from.
    pub closed spec fn spec_source(&self) -> SecretSource {
        self.source
    }

    /// A secret from a source.
    pub fn new(value: &str, source: SecretSource) -> (r: Secret)
        ensures
            r.spec_value() == value@,
            r.spec_source() == source,
    {
        Secret { value: value.to_owned(), source }
    }

    /// The value.
    pub fn value(&self) -> (r: &str)
        ensures
            r@ == self.spec_value(),
    {
        self.value.as_str()
    }

    /// Where it came from.
    pub fn source(&self) -> (r: &SecretSource)
        ensures
            *r == self.spec_source(),
    {
        &self.source
    }

    /// The value with its first and last bytes kept and every other byte
    /// shown as a star; a value of at most two bytes is all stars. A longer
    /// value must begin and end with a one-byte character.
    pub fn masked(&self) -> (r: String)
        requires
            maskable(self.spec_value()),
        ensures
            r@ == masked_text(self.spec_value()),
    {
        let s = self.value.as_str();
        let n = s.as_bytes().len();
        if n <= 2 {
            star_string(n)
        } else {
            let cn = s.unicode_len();
            let first = s.substring_char(0, 1);
            let last = s.substring_char(cn - 1, cn);
            let stars = star_string(n - 2);
            let r = joined(joined(first, stars.as_str()).as_str(), last);
            assert(r@ =~= masked_text(self.spec_value()));
            r
        }
    }

}

/// The message for a variable missing from the environment.
pub open spec fn missing_env_message(key: Seq<char>) -> Seq<char> {
    "Environment variable '"@ + key + "' not found"@
}

/// The names among `keys` that have no secret, in the order given.
pub open spec fn missing_keys(keys: Seq<&str>, m: Map<Seq<char>, Secret>) -> Seq<Seq<char>>
    decreases keys.len(),
{
    if keys.len() == 0 {
        Seq::empty()
    } else if m.contains_key(keys.last()@) {
        missing_keys(keys.drop_last(), m)
    } else {
        missing_keys(keys.drop_last(), m).push(keys.last()@)
    }
}

/// Holds secrets by name.
pub struct SecretsManager {
    secrets: KeyedList<Secret>,
}

impl View for SecretsManager {
    type V = Map<Seq<char>, Secret>;

    closed spec fn view(&self) -> Map<Seq<char>, Secret> {
        self.secrets@
    }
}

impl SecretsManager {
    /// The names in the order they were first set.
    pub closed spec fn spec_order(&self) -> Seq<Seq<char>> {
        self.secrets.key_order()
    }

    /// No secrets.
    pub fn new() -> (r: SecretsManager)
        ensures
            r@ == Map::<Seq<char>, Secret>::empty(),
    {
        SecretsManager { secrets: KeyedList::new() }
    }

    /// Take the value of an environment variable, if the environment had
    /// it; else report it missing.
    pub fn load_env(&mut self, key: &str, value: Option<String>) -> (r: Result<(), String>)
        ensures
            r.is_ok() == value.is_some(),
            value.is_some() ==> final(self)@.contains_key(key@) && final(self)@[key@].spec_value()
                == value.unwrap()@ && final(self)@[key@].spec_source() == SecretSource::Environment
                && forall|k: Seq<char>| k != key@ ==> (#[trigger] final(self)@.contains_key(k)
                == old(self)@.contains_key(k)) && (old(self)@.contains_key(k) ==> final(self)@[k]
                == old(self)@[k]),
            value.is_none() ==> final(self)@ == old(self)@ && (r matches Err(m) && m@ == missing_env_message(key@)),
    {
        match value {
            Some(v) => {
                self.secrets.insert(key.to_owned(), Secret::new(v.as_str(), SecretSource::Environment));
                Ok(())
            },
            None => Err(joined(joined("Environment variable '", key).as_str(), "' not found")),
        }
    }

    /// Store a secret held in memory, replacing one of the same name.
    pub fn set_secret(&mut self, key: &str, value: &str)
        ensures
            final(self)@.contains_key(key@),
            final(self)@[key@].spec_value() == value@,
            final(self)@[key@].spec_source() == SecretSource::Memory,
            forall|k: Seq<char>| k != key@ ==> (#[trigger] final(self)@.contains_key(k)
                == old(self)@.contains_key(k)) && (old(self)@.contains_key(k) ==> final(self)@[k]
                == old(self)@[k]),
    {
        self.secrets.insert(key.to_owned(), Secret::new(value, SecretSource::Memory));
    }

    /// The secret under a name, if any.
    pub fn get_secret(&self, key: &str) -> (r: Option<&Secret>)
        ensures
            r.is_some() == self@.contains_key(key@),
            r.is_some() ==> *r.unwrap() == self@[key@],
    {
        self.secrets.get(key)
    }

    /// The value of the secret under a name, if any.
    pub fn get(&self, key: &str) -> (r: Option<String>)
        ensures
            r.is_some() == self@.contains_key(key@),
            r.is_some() ==> r.unwrap()@ == self@[key@].spec_value(),
    {
        match self.secrets.get(key) {
            Some(s) => Some(s.value().to_owned()),
            None => None,
        }
    }

    /// Whether there is a secret under a name.
    pub fn has_secret(&self, key: &str) -> (r: bool)
        ensures
            r == self@.contains_key(key@),
    {
        self.secrets.contains_key(key)
    }

    /// Take out the secret under a name, if any.
    pub fn remove_secret(&mut self, key: &str) -> (r: Option<Secret>)
        ensures
            final(self)@ == old(self)@.remove(key@),
            r.is_some() == old(self)@.contains_key(key@),
            r.is_some() ==> r.unwrap() == old(self)@[key@],
    {
        self.secrets.remove(key)
    }

    /// Remove every secret.
    pub fn clear(&mut self)
        ensures
            final(self)@ == Map::<Seq<char>, Secret>::empty(),
    {
        self.secrets.clear();
    }

    /// The names, in the order they were first set.
    pub fn keys(&self) -> (r: Vec<String>)
        ensures
            crate::element::strings_view(r@) == self.spec_order(),
            r@.len() == self@.len(),
            forall|k: Seq<char>| #[trigger] self@.contains_key(k) ==> exists|i: int|
                0 <= i < r@.len() && #[trigger] r@[i]@ == k,
    {
        self.secrets.keys()
    }

    /// The number of secrets.
    pub fn count(&self) -> (r: usize)
        ensures
            r == self@.len(),
    {
        self.secrets.len()
    }

    /// Take the values of several environment variables, as the
    /// environment had them; report every missing one.
    pub fn load_env_batch(&mut self, found: Vec<(String, Option<String>)>) -> (r: Result<(), String>)
        ensures
            r.is_ok() == (forall|i: int| 0 <= i < found@.len() ==> (#[trigger] found@[i]).1.is_some()),
            forall|i: int| #![trigger found@[i]]
                0 <= i < found@.len() && found@[i].1.is_some() && (forall|j: int| i < j < found@.len() ==> #[trigger] found@[j].0@ != found@[i].0@)
                ==> final(self)@.contains_key(found@[i].0@) && final(self)@[found@[i].0@].spec_value() == found@[i].1.unwrap()@,
    {
        let mut errors: Vec<String> = Vec::new();
        let mut i: usize = 0;
        while i < found.len()
            invariant
                i <= found@.len(),
                (errors@.len() == 0) == (forall|j: int| 0 <= j < i ==> (#[trigger] found@[j]).1.is_some()),
                forall|j: int| #![trigger found@[j]]
                    0 <= j < i && found@[j].1.is_some() && (forall|l: int| j < l < i ==> #[trigger] found@[l].0@ != found@[j].0@)
                    ==> self@.contains_key(found@[j].0@) && self@[found@[j].0@].spec_value() == found@[j].1.unwrap()@,
            decreases found@.len() - i,
        {
            let (key, value) = (&found[i].0, &found[i].1);
            let v = match value {
                Some(s) => Some(s.clone()),
                None => None,
            };
            let ghost before = self@;
            match self.load_env(key.as_str(), v) {
                Ok(()) => {},
                Err(e) => {
                    errors.push(e);
                },
            }
            assert forall|j: int| #![trigger found@[j]]
                0 <= j < i + 1 && found@[j].1.is_some() && (forall|l: int| j < l < i + 1 ==> #[trigger] found@[l].0@ != found@[j].0@)
                implies self@.contains_key(found@[j].0@) && self@[found@[j].0@].spec_value() == found@[j].1.unwrap()@ by {
                if j < i {
                    assert(found@[i as int].0@ != found@[j].0@);
                    assert(forall|l: int| j < l < i ==> #[trigger] found@[l].0@ != found@[j].0@);
                    assert(before.contains_key(found@[j].0@));
                }
            }
            i = i + 1;
        }
        if errors.len() == 0 {
            Ok(())
        } else {
            Err(joined("Failed to load secrets: ", join(&errors, ", ").as_str()))
        }
    }

    /// Check that every required name has a secret; report the missing ones.
    pub fn validate_required(&self, required_keys: &[&str]) -> (r: Result<(), String>)
        ensures
            r.is_ok() == (forall|i: int| 0 <= i < required_keys@.len() ==> self@.contains_key(#[trigger] required_keys@[i]@)),
            !r.is_ok() ==> (r matches Err(m) && m@ == "Missing required secrets: "@ + join_texts(
                missing_keys(required_keys@, self@),
                ", "@,
            )),
    {
        let mut missing: Vec<String> = Vec::new();
        let mut i: usize = 0;
        while i < required_keys.len()
            invariant
                i <= required_keys@.len(),
                (missing@.len() == 0) == (forall|j: int| 0 <= j < i ==> self@.contains_key(#[trigger] required_keys@[j]@)),
                crate::element::strings_view(missing@) == missing_keys(required_keys@.subrange(0, i as int), self@),
            decreases required_keys@.len() - i,
        {
            assert(required_keys@.subrange(0, i + 1).drop_last() =~= required_keys@.subrange(0, i as int));
            let k = required_keys[i];
            if !self.has_secret(k) {
                missing.push(k.to_owned());
            }
            assert(crate::element::strings_view(missing@) =~= missing_keys(required_keys@.subrange(0, i + 1), self@));
            i = i + 1;
        }
        assert(required_keys@.subrange(0, required_keys@.len() as int) =~= required_keys@);
        if missing.len() == 0 {
            Ok(())
        } else {
            Err(joined("Missing required secrets: ", join(&missing, ", ").as_str()))
        }
    }
}

impl Default for SecretsManager {
    fn default() -> (r: SecretsManager)
        ensures
            r@ == Map::<Seq<char>, Secret>::empty(),
    {
        SecretsManager::new()
    }
}

} // verus!
