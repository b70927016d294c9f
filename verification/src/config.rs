//! The loosely-typed configuration payload and its structured form.
//!
//! A frontend hands window options over as an untyped key/value object. The
//! shell recognizes six keys — `title`, `width`, `height`, `fullscreen`,
//! `decorations`, `alwaysOnTop` — each optional; an absent key means "leave
//! the current value unchanged", an entry of the wrong shape or under an
//! unrecognized key is skipped silently.

use vstd::prelude::*;

verus! {

/// One key/value pair of the loosely-typed window-configuration payload.
pub struct ConfigEntry {
    pub key: String,
    pub value: ConfigValue,
}

/// A payload value, reduced to the plain shapes the recognized settings
/// read. `Other` stands for any value of a kind no recognized setting uses
/// (null, arrays, nested objects, ...).
pub enum ConfigValue {
    Text(String),
    Num(u32),
    Flag(bool),
    Other,
}

/// The value stored under the first entry with the given key, if any.
pub open spec fn lookup(entries: Seq<ConfigEntry>, key: Seq<char>) -> Option<ConfigValue>
    decreases entries.len(),
{
    if entries.len() == 0 {
        None
    } else if entries[0].key@ == key {
        Some(entries[0].value)
    } else {
        lookup(entries.drop_first(), key)
    }
}

/// The text under `key`, if the key is present with a text value.
pub open spec fn text_at(entries: Seq<ConfigEntry>, key: Seq<char>) -> Option<Seq<char>> {
    match lookup(entries, key) {
        Some(ConfigValue::Text(s)) => Some(s@),
        _ => None,
    }
}

/// The number under `key`, if the key is present with a numeric value.
pub open spec fn num_at(entries: Seq<ConfigEntry>, key: Seq<char>) -> Option<u32> {
    match lookup(entries, key) {
        Some(ConfigValue::Num(n)) => Some(n),
        _ => None,
    }
}

/// The flag under `key`, if the key is present with a boolean value.
pub open spec fn flag_at(entries: Seq<ConfigEntry>, key: Seq<char>) -> Option<bool> {
    match lookup(entries, key) {
        Some(ConfigValue::Flag(b)) => Some(b),
        _ => None,
    }
}

proof fn lemma_lookup_skip(entries: Seq<ConfigEntry>, key: Seq<char>, i: int)
    requires
        0 <= i <= entries.len(),
        forall|j: int| 0 <= j < i ==> entries[j].key@ != key,
    ensures
        lookup(entries, key) == lookup(entries.skip(i), key),
    decreases i,
{
    if i > 0 {
        lemma_lookup_skip(entries.drop_first(), key, i - 1);
        assert(entries.drop_first().skip(i - 1) =~= entries.skip(i));
    } else {
        assert(entries.skip(0) =~= entries);
    }
}

/// Linear scan for the first entry stored under `key`.
pub fn lookup_value<'a>(entries: &'a Vec<ConfigEntry>, key: &String) -> (r: Option<&'a ConfigValue>)
    ensures
        match r {
            Some(v) => lookup(entries@, key@) == Some(*v),
            None => lookup(entries@, key@) is None,
        },
{
    let mut i: usize = 0;
    while i < entries.len()
        invariant
            i <= entries@.len(),
            forall|j: int| 0 <= j < i ==> entries@[j].key@ != key@,
        decreases entries@.len() - i,
    {
        if entries[i].key == *key {
            proof {
                lemma_lookup_skip(entries@, key@, i as int);
                assert(entries@.skip(i as int)[0] == entries@[i as int]);
            }
            return Some(&entries[i].value);
        }
        i += 1;
    }
    proof {
        lemma_lookup_skip(entries@, key@, entries@.len() as int);
        assert(entries@.skip(entries@.len() as int) =~= Seq::<ConfigEntry>::empty());
    }
    None
}

/// The structured form of a window-configuration payload: one optional field
/// per recognized setting. An absent field means "leave the current value
/// unchanged".
pub struct WindowConfig {
    pub title: Option<String>,
    pub width: Option<u32>,
    pub height: Option<u32>,
    pub fullscreen: Option<bool>,
    pub decorations: Option<bool>,
    pub always_on_top: Option<bool>,
}

/// The mathematical model of a structured configuration.
#[verifier::ext_equal]
pub ghost struct ConfigModel {
    pub title: Option<Seq<char>>,
    pub width: Option<u32>,
    pub height: Option<u32>,
    pub fullscreen: Option<bool>,
    pub decorations: Option<bool>,
    pub always_on_top: Option<bool>,
}

impl View for WindowConfig {
    type V = ConfigModel;

    open spec fn view(&self) -> ConfigModel {
        ConfigModel {
            title: match self.title {
                Some(t) => Some(t@),
                None => None,
            },
            width: self.width,
            height: self.height,
            fullscreen: self.fullscreen,
            decorations: self.decorations,
            always_on_top: self.always_on_top,
        }
    }
}

/// The structured configuration a payload stands for: each recognized key
/// that is present with a value of the expected shape fills its field; a key
/// that is absent, of the wrong shape, or unrecognized fills nothing.
pub open spec fn config_of(entries: Seq<ConfigEntry>) -> ConfigModel {
    ConfigModel {
        title: text_at(entries, "title"@),
        width: num_at(entries, "width"@),
        height: num_at(entries, "height"@),
        fullscreen: flag_at(entries, "fullscreen"@),
        decorations: flag_at(entries, "decorations"@),
        always_on_top: flag_at(entries, "alwaysOnTop"@),
    }
}

/// Whether a key is one of the six settings the applier reads.
pub open spec fn recognized_key(key: Seq<char>) -> bool {
    ||| key == "title"@
    ||| key == "width"@
    ||| key == "height"@
    ||| key == "fullscreen"@
    ||| key == "decorations"@
    ||| key == "alwaysOnTop"@
}

impl WindowConfig {
    /// Reads the recognized settings out of a loosely-typed payload: for each
    /// recognized key present with a value of the expected shape, the field is
    /// filled; everything else — absent keys, wrong shapes, unrecognized keys
    /// — is skipped without error.
    pub fn from_entries(entries: &Vec<ConfigEntry>) -> (r: WindowConfig)
        ensures
            r@ == config_of(entries@),
    {
        let title = match lookup_value(entries, &"title".to_owned()) {
            Some(ConfigValue::Text(s)) => Some(s.clone()),
            _ => None,
        };
        let width = match lookup_value(entries, &"width".to_owned()) {
            Some(ConfigValue::Num(n)) => Some(*n),
            _ => None,
        };
        let height = match lookup_value(entries, &"height".to_owned()) {
            Some(ConfigValue::Num(n)) => Some(*n),
            _ => None,
        };
        let fullscreen = match lookup_value(entries, &"fullscreen".to_owned()) {
            Some(ConfigValue::Flag(b)) => Some(*b),
            _ => None,
        };
        let decorations = match lookup_value(entries, &"decorations".to_owned()) {
            Some(ConfigValue::Flag(b)) => Some(*b),
            _ => None,
        };
        let always_on_top = match lookup_value(entries, &"alwaysOnTop".to_owned()) {
            Some(ConfigValue::Flag(b)) => Some(*b),
            _ => None,
        };
        let r = WindowConfig { title, width, height, fullscreen, decorations, always_on_top };
        proof {
            assert(r@ =~= config_of(entries@));
        }
        r
    }
}

proof fn lemma_lookup_remove(entries: Seq<ConfigEntry>, key: Seq<char>, i: int)
    requires
        0 <= i < entries.len(),
        entries[i].key@ != key,
    ensures
        lookup(entries.remove(i), key) == lookup(entries, key),
    decreases entries.len(),
{
    if i == 0 {
        assert(entries.remove(0) =~= entries.drop_first());
    } else {
        lemma_lookup_remove(entries.drop_first(), key, i - 1);
        assert(entries.drop_first().remove(i - 1) =~= entries.remove(i).drop_first());
        assert(entries.remove(i)[0] == entries[0]);
    }
}

/// An entry under an unrecognized key has no effect on the configuration a
/// payload stands for: dropping it leaves the same structured configuration,
/// so every recognized key in the same payload is still applied.
pub proof fn law_unrecognized_key_ignored(entries: Seq<ConfigEntry>, i: int)
    requires
        0 <= i < entries.len(),
        !recognized_key(entries[i].key@),
    ensures
        config_of(entries.remove(i)) == config_of(entries),
{
    lemma_lookup_remove(entries, "title"@, i);
    lemma_lookup_remove(entries, "width"@, i);
    lemma_lookup_remove(entries, "height"@, i);
    lemma_lookup_remove(entries, "fullscreen"@, i);
    lemma_lookup_remove(entries, "decorations"@, i);
    lemma_lookup_remove(entries, "alwaysOnTop"@, i);
    assert(config_of(entries.remove(i)) =~= config_of(entries));
}

} // verus!
