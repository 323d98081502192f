//! Presets, the store that holds them, and the rules for loading the store.
use crate::errors::AppError;
use crate::provider::ProviderKind;
use crate::text_order::{
    lemma_text_before_irreflexive, lemma_text_before_total, lemma_text_before_transitive,
    name_before, text_before,
};
use vstd::prelude::*;

verus! {

/// The single store format version that this library reads and writes.
pub const CURRENT_CONFIG_VERSION: u32 = 1;

/// The name under which the built-in preset is kept.
pub const DEFAULT_GLM_PRESET_NAME: &'static str = "glm";

/// The text of a string with leading and trailing whitespace removed
/// (`str::trim`).
pub uninterp spec fn trimmed(s: Seq<char>) -> Seq<char>;

/// Relies on `str::trim`: the result depends on the text alone.
#[verifier::external_body]
pub(crate) fn trim_text(s: &str) -> (r: &str)
    ensures
        r@ == trimmed(s@),
{
    s.trim()
}

/// The text of an optional string.
pub open spec fn opt_text(o: Option<String>) -> Option<Seq<char>> {
    match o {
        Some(s) => Some(s@),
        None => None,
    }
}

/// A text counts as missing when nothing but whitespace is in it.
pub open spec fn blank(s: Seq<char>) -> bool {
    trimmed(s).len() == 0
}

/// The model identifiers that a preset sets for the three model tiers.
#[derive(Debug, Clone)]
pub struct ModelConfig {
    pub haiku_model: String,
    pub sonnet_model: String,
    pub opus_model: String,
}

/// Network overrides of a preset.
#[derive(Debug, Clone)]
pub struct NetworkConfig {
    pub http_proxy: Option<String>,
}

/// Timeout overrides of a preset, kept verbatim as text.
#[derive(Debug, Clone)]
pub struct TimeoutConfig {
    pub api_timeout_ms: Option<String>,
    pub mcp_tool_timeout: Option<String>,
}

/// Flag overrides of a preset, kept verbatim as text (`"true"` or `"false"`).
#[derive(Debug, Clone)]
pub struct FlagConfig {
    pub disable_nonessential_traffic: Option<String>,
}

/// A named bundle of endpoint, credentials, models and optional overrides.
#[derive(Debug, Clone)]
pub struct Preset {
    pub provider: ProviderKind,
    pub base_url: String,
    pub auth_token: String,
    pub models: ModelConfig,
    pub network: Option<NetworkConfig>,
    pub timeouts: Option<TimeoutConfig>,
    pub flags: Option<FlagConfig>,
}

/// The first required field of `p` that is blank, by its path in the store
/// format, checked in the order base URL, auth token, haiku, sonnet, opus.
pub open spec fn first_missing_field(p: Preset) -> Option<Seq<char>> {
    if blank(p.base_url@) {
        Some("base_url"@)
    } else if blank(p.auth_token@) {
        Some("auth_token"@)
    } else if blank(p.models.haiku_model@) {
        Some("models.haiku_model"@)
    } else if blank(p.models.sonnet_model@) {
        Some("models.sonnet_model"@)
    } else if blank(p.models.opus_model@) {
        Some("models.opus_model"@)
    } else {
        None
    }
}

/// Whether `r` is the outcome that readiness validation owes for `p` under
/// the name `name`.
pub open spec fn readiness_outcome(p: Preset, name: Seq<char>, r: Result<(), AppError>) -> bool {
    match first_missing_field(p) {
        None => r is Ok,
        Some(f) => r matches Err(AppError::PresetIncomplete { preset, field }) && preset@ == name
            && field@ == f,
    }
}

impl Preset {
    /// Checks that every required field holds more than whitespace; reports
    /// the first one that does not.
    pub fn validate_ready(&self, preset_name: &str) -> (r: Result<(), AppError>)
        ensures
            readiness_outcome(*self, preset_name@, r),
    {
        if trim_text(self.base_url.as_str()).is_empty() {
            return Err(AppError::PresetIncomplete { preset: preset_name.to_owned(), field: "base_url" });
        }
        if trim_text(self.auth_token.as_str()).is_empty() {
            return Err(
                AppError::PresetIncomplete { preset: preset_name.to_owned(), field: "auth_token" },
            );
        }
        if trim_text(self.models.haiku_model.as_str()).is_empty() {
            return Err(
                AppError::PresetIncomplete {
                    preset: preset_name.to_owned(),
                    field: "models.haiku_model",
                },
            );
        }
        if trim_text(self.models.sonnet_model.as_str()).is_empty() {
            return Err(
                AppError::PresetIncomplete {
                    preset: preset_name.to_owned(),
                    field: "models.sonnet_model",
                },
            );
        }
        if trim_text(self.models.opus_model.as_str()).is_empty() {
            return Err(
                AppError::PresetIncomplete {
                    preset: preset_name.to_owned(),
                    field: "models.opus_model",
                },
            );
        }
        Ok(())
    }
}

/// Whether `p` is the built-in preset: the GLM endpoint, GLM-4.7 for every
/// tier, no auth token and no optional overrides.
pub open spec fn is_default_glm_preset(p: Preset) -> bool {
    &&& p.provider == ProviderKind::Glm
    &&& p.base_url@ == "https://open.bigmodel.cn/api/anthropic"@
    &&& p.auth_token@ == Seq::<char>::empty()
    &&& p.models.haiku_model@ == "GLM-4.7"@
    &&& p.models.sonnet_model@ == "GLM-4.7"@
    &&& p.models.opus_model@ == "GLM-4.7"@
    &&& p.network is None
    &&& p.timeouts is None
    &&& p.flags is None
}

/// The built-in preset, inserted into every store that lacks it.
pub fn default_glm_preset() -> (r: Preset)
    ensures
        is_default_glm_preset(r),
{
    Preset {
        provider: ProviderKind::Glm,
        base_url: "https://open.bigmodel.cn/api/anthropic".to_owned(),
        auth_token: String::new(),
        models: ModelConfig {
            haiku_model: "GLM-4.7".to_owned(),
            sonnet_model: "GLM-4.7".to_owned(),
            opus_model: "GLM-4.7".to_owned(),
        },
        network: None,
        timeouts: None,
        flags: None,
    }
}

/// Whether some pair of the sequence carries the name.
pub open spec fn has_name(s: Seq<(String, Preset)>, k: Seq<char>) -> bool {
    exists|i: int| 0 <= i < s.len() && (#[trigger] s[i]).0@ == k
}

/// The position of a pair that carries the name.
pub open spec fn name_index(s: Seq<(String, Preset)>, k: Seq<char>) -> int {
    choose|i: int| 0 <= i < s.len() && (#[trigger] s[i]).0@ == k
}

/// No name is carried by two pairs.
pub open spec fn unique_names(s: Seq<(String, Preset)>) -> bool {
    forall|i: int, j: int| 0 <= i < s.len() && 0 <= j < s.len() && i != j ==> (#[trigger] s[i]).0@
        != (#[trigger] s[j]).0@
}

/// The names of the pairs come in strictly increasing order.
pub open spec fn sorted_names(s: Seq<(String, Preset)>) -> bool {
    forall|i: int, j: int| 0 <= i < j < s.len() ==> text_before((#[trigger] s[i]).0@, (#[trigger] s[j]).0@)
}

proof fn lemma_sorted_unique(s: Seq<(String, Preset)>)
    requires
        sorted_names(s),
    ensures
        unique_names(s),
{
    assert forall|i: int, j: int| 0 <= i < s.len() && 0 <= j < s.len() && i != j implies (
    #[trigger] s[i]).0@ != (#[trigger] s[j]).0@ by {
        if i < j {
            lemma_text_before_irreflexive(s[i].0@);
        } else {
            lemma_text_before_irreflexive(s[j].0@);
        }
    }
}

/// The presets of a sequence of pairs, by name.
pub open spec fn pairs_map(s: Seq<(String, Preset)>) -> Map<Seq<char>, Preset> {
    Map::new(|k: Seq<char>| has_name(s, k), |k: Seq<char>| s[name_index(s, k)].1)
}

/// Under unique names, the preset of a pair is the one the map gives for its name.
proof fn lemma_pairs_map_at(s: Seq<(String, Preset)>, i: int)
    requires
        unique_names(s),
        0 <= i < s.len(),
    ensures
        pairs_map(s).contains_key(s[i].0@),
        pairs_map(s)[s[i].0@] == s[i].1,
{
    assert(has_name(s, s[i].0@));
    let j = name_index(s, s[i].0@);
    assert(s[j].0@ == s[i].0@);
}

/// The presets of a store, by name. The pairs are kept in the order of their
/// names, so that no name is there twice.
#[derive(Debug)]
pub struct PresetMap {
    entries: Vec<(String, Preset)>,
}

impl View for PresetMap {
    type V = Map<Seq<char>, Preset>;

    closed spec fn view(&self) -> Map<Seq<char>, Preset> {
        pairs_map(self.entries@)
    }
}

impl PresetMap {
    #[verifier::type_invariant]
    spec fn names_sorted(self) -> bool {
        sorted_names(self.entries@)
    }

    pub fn new() -> (r: PresetMap)
        ensures
            r@ == Map::<Seq<char>, Preset>::empty(),
    {
        let r = PresetMap { entries: Vec::new() };
        assert(r@ =~= Map::<Seq<char>, Preset>::empty());
        r
    }

    /// The pairs of the map, in the order of their names.
    pub fn entries(&self) -> (r: &Vec<(String, Preset)>)
        ensures
            pairs_map(r@) == self@,
            sorted_names(r@),
    {
        proof {
            use_type_invariant(self);
        }
        &self.entries
    }

    pub fn len(&self) -> (r: usize)
        ensures
            r == self@.len(),
    {
        proof {
            use_type_invariant(self);
            lemma_sorted_unique(self.entries@);
            lemma_pairs_map_len(self.entries@);
        }
        self.entries.len()
    }

    pub fn is_empty(&self) -> (r: bool)
        ensures
            r == (self@.len() == 0),
    {
        self.len() == 0
    }

    /// The position of the pair that carries the name, if any.
    fn position(&self, name: &str) -> (r: Option<usize>)
        ensures
            match r {
                Some(i) => i < self.entries@.len() && self.entries@[i as int].0@ == name@,
                None => !has_name(self.entries@, name@),
            },
    {
        let key = name.to_owned();
        let mut i: usize = 0;
        while i < self.entries.len()
            invariant
                i <= self.entries@.len(),
                key@ == name@,
                forall|j: int| 0 <= j < i ==> (#[trigger] self.entries@[j]).0@ != name@,
            decreases self.entries@.len() - i,
        {
            if self.entries[i].0 == key {
                return Some(i);
            }
            i = i + 1;
        }
        None
    }

    /// The first position whose name does not come before `name`.
    fn insertion_point(&self, name: &str) -> (r: usize)
        ensures
            r <= self.entries@.len(),
            forall|j: int| 0 <= j < r ==> text_before((#[trigger] self.entries@[j]).0@, name@),
            r < self.entries@.len() ==> !text_before(self.entries@[r as int].0@, name@),
    {
        let mut i: usize = 0;
        while i < self.entries.len() && name_before(self.entries[i].0.as_str(), name)
            invariant
                i <= self.entries@.len(),
                forall|j: int| 0 <= j < i ==> text_before((#[trigger] self.entries@[j]).0@, name@),
            decreases self.entries@.len() - i,
        {
            i = i + 1;
        }
        i
    }

    pub fn contains_key(&self, name: &str) -> (r: bool)
        ensures
            r == self@.contains_key(name@),
    {
        self.position(name).is_some()
    }

    pub fn get(&self, name: &str) -> (r: Option<&Preset>)
        ensures
            match r {
                Some(p) => self@.contains_key(name@) && *p == self@[name@],
                None => !self@.contains_key(name@),
            },
    {
        proof {
            use_type_invariant(self);
            lemma_sorted_unique(self.entries@);
        }
        match self.position(name) {
            Some(i) => {
                proof {
                    lemma_pairs_map_at(self.entries@, i as int);
                }
                Some(&self.entries[i].1)
            },
            None => None,
        }
    }

    /// Puts the preset under the name, in place of any preset it held.
    pub fn insert(&mut self, name: String, preset: Preset)
        ensures
            final(self)@ == old(self)@.insert(name@, preset),
    {
        proof {
            use_type_invariant(&*self);
            lemma_sorted_unique(self.entries@);
        }
        let ghost s = self.entries@;
        let p = self.insertion_point(name.as_str());
        let mut entries: Vec<(String, Preset)> = Vec::new();
        std::mem::swap(&mut entries, &mut self.entries);
        if p < entries.len() && entries[p].0 == name {
            entries.set(p, (name, preset));
            proof {
                lemma_pairs_map_update(s, p as int, entries@[p as int]);
                let t = entries@;
                assert forall|i: int, j: int| 0 <= i < j < t.len() implies text_before(
                    (#[trigger] t[i]).0@,
                    (#[trigger] t[j]).0@,
                ) by {
                    assert(t[i].0@ == s[i].0@ && t[j].0@ == s[j].0@);
                }
            }
        } else {
            let ghost x = (name, preset);
            entries.insert(p, (name, preset));
            proof {
                lemma_insert_keeps_order(s, p as int, x);
                lemma_pairs_map_insert(s, p as int, x);
            }
        }
        self.entries = entries;
    }

    /// Takes the preset under the name out of the map, if there is one.
    pub fn remove(&mut self, name: &str) -> (r: Option<Preset>)
        ensures
            final(self)@ == old(self)@.remove(name@),
            match r {
                Some(p) => old(self)@.contains_key(name@) && p == old(self)@[name@],
                None => !old(self)@.contains_key(name@),
            },
    {
        proof {
            use_type_invariant(&*self);
        }
        let ghost old_entries = self.entries@;
        match self.position(name) {
            Some(i) => {
                let mut entries: Vec<(String, Preset)> = Vec::new();
                std::mem::swap(&mut entries, &mut self.entries);
                let pair = entries.remove(i);
                proof {
                    lemma_sorted_unique(old_entries);
                    lemma_pairs_map_at(old_entries, i as int);
                    lemma_pairs_map_remove(old_entries, i as int);
                    let t = entries@;
                    assert forall|a: int, b: int| 0 <= a < b < t.len() implies text_before(
                        (#[trigger] t[a]).0@,
                        (#[trigger] t[b]).0@,
                    ) by {
                        let sa = if a < i {
                            a
                        } else {
                            a + 1
                        };
                        let sb = if b < i {
                            b
                        } else {
                            b + 1
                        };
                        assert(t[a] == old_entries[sa] && t[b] == old_entries[sb]);
                    }
                }
                self.entries = entries;
                Some(pair.1)
            },
            None => {
                proof {
                    assert(old(self)@.remove(name@) =~= old(self)@);
                }
                None
            },
        }
    }
}

proof fn lemma_pairs_map_len(s: Seq<(String, Preset)>)
    requires
        unique_names(s),
    ensures
        pairs_map(s).len() == s.len(),
        pairs_map(s).dom().finite(),
    decreases s.len(),
{
    if s.len() == 0 {
        assert(pairs_map(s).dom() =~= Set::<Seq<char>>::empty());
    } else {
        let t = s.drop_last();
        assert(unique_names(t));
        lemma_pairs_map_len(t);
        lemma_pairs_map_push(t, s.last());
        assert(t.push(s.last()) =~= s);
        assert(!pairs_map(t).contains_key(s.last().0@)) by {
            if has_name(t, s.last().0@) {
                let j = name_index(t, s.last().0@);
                assert(s[j].0@ == s[s.len() - 1].0@);
            }
        }
    }
}

proof fn lemma_pairs_map_push(s: Seq<(String, Preset)>, x: (String, Preset))
    requires
        unique_names(s),
        !has_name(s, x.0@),
    ensures
        unique_names(s.push(x)),
        pairs_map(s.push(x)) == pairs_map(s).insert(x.0@, x.1),
{
    let t = s.push(x);
    assert forall|i: int, j: int| 0 <= i < t.len() && 0 <= j < t.len() && i != j implies (
    #[trigger] t[i]).0@ != (#[trigger] t[j]).0@ by {
        if i < s.len() && j < s.len() {
            assert(t[i] == s[i] && t[j] == s[j]);
        } else if i < s.len() {
            assert(t[i] == s[i]);
        } else {
            assert(t[j] == s[j]);
        }
    }
    assert forall|k: Seq<char>| #[trigger] has_name(t, k) == (has_name(s, k) || k == x.0@) by {
        if has_name(s, k) {
            let j = name_index(s, k);
            assert(t[j] == s[j]);
        }
        if k == x.0@ {
            assert(t[s.len() as int] == x);
        }
        if has_name(t, k) && k != x.0@ {
            let j = name_index(t, k);
            assert(j < s.len());
            assert(t[j] == s[j]);
        }
    }
    assert forall|k: Seq<char>| has_name(s, k) implies #[trigger] t[name_index(t, k)].1 == s[name_index(
        s,
        k,
    )].1 by {
        let j = name_index(s, k);
        assert(t[j] == s[j]);
    }
    assert(pairs_map(t) =~= pairs_map(s).insert(x.0@, x.1)) by {
        lemma_pairs_map_at(t, s.len() as int);
    }
}

/// Inserting at the first position whose name does not come before the new
/// name, where that name is not the new one, keeps the names in order and
/// leaves the new name without a pair beforehand.
proof fn lemma_insert_keeps_order(s: Seq<(String, Preset)>, p: int, x: (String, Preset))
    requires
        sorted_names(s),
        0 <= p <= s.len(),
        forall|j: int| 0 <= j < p ==> text_before((#[trigger] s[j]).0@, x.0@),
        p < s.len() ==> !text_before(s[p].0@, x.0@) && s[p].0@ != x.0@,
    ensures
        sorted_names(s.insert(p, x)),
        !has_name(s, x.0@),
{
    let t = s.insert(p, x);
    s.insert_ensures(p, x);
    if p < s.len() {
        lemma_text_before_total(s[p].0@, x.0@);
    }
    assert forall|i: int, j: int| 0 <= i < j < t.len() implies text_before(
        (#[trigger] t[i]).0@,
        (#[trigger] t[j]).0@,
    ) by {
        if j < p {
        } else if j == p {
        } else if i < p {
            assert(t[j] == s[j - 1]);
        } else if i == p {
            assert(t[j] == s[j - 1]);
            if j - 1 > p {
                lemma_text_before_transitive(x.0@, s[p].0@, s[j - 1].0@);
            }
        } else {
            assert(t[i] == s[i - 1]);
            assert(t[j] == s[j - 1]);
        }
    }
    if has_name(s, x.0@) {
        let k = name_index(s, x.0@);
        if k < p {
            lemma_text_before_irreflexive(x.0@);
        } else if k > p {
            assert(text_before(s[p].0@, s[k].0@));
        }
    }
}

proof fn lemma_pairs_map_insert(s: Seq<(String, Preset)>, p: int, x: (String, Preset))
    requires
        unique_names(s),
        !has_name(s, x.0@),
        0 <= p <= s.len(),
    ensures
        unique_names(s.insert(p, x)),
        pairs_map(s.insert(p, x)) == pairs_map(s).insert(x.0@, x.1),
{
    let t = s.insert(p, x);
    s.insert_ensures(p, x);
    assert forall|a: int| 0 <= a < t.len() && a != p implies #[trigger] t[a] == s[if a < p {
        a
    } else {
        a - 1
    }] by {}
    assert forall|a: int, b: int| 0 <= a < t.len() && 0 <= b < t.len() && a != b implies (
    #[trigger] t[a]).0@ != (#[trigger] t[b]).0@ by {
        if a != p && b != p {
            let sa = if a < p {
                a
            } else {
                a - 1
            };
            let sb = if b < p {
                b
            } else {
                b - 1
            };
            assert(t[a] == s[sa] && t[b] == s[sb]);
        } else if a == p {
            let sb = if b < p {
                b
            } else {
                b - 1
            };
            assert(t[b] == s[sb]);
        } else {
            let sa = if a < p {
                a
            } else {
                a - 1
            };
            assert(t[a] == s[sa]);
        }
    }
    assert forall|k: Seq<char>| #[trigger] has_name(t, k) == (has_name(s, k) || k == x.0@) by {
        if has_name(s, k) {
            let j = name_index(s, k);
            let jt = if j < p {
                j
            } else {
                j + 1
            };
            assert(t[jt] == s[j]);
        }
        if k == x.0@ {
            assert(t[p] == x);
        }
        if has_name(t, k) && k != x.0@ {
            let j = name_index(t, k);
            assert(j != p);
            let js = if j < p {
                j
            } else {
                j - 1
            };
            assert(t[j] == s[js]);
        }
    }
    assert forall|k: Seq<char>| has_name(s, k) implies #[trigger] t[name_index(t, k)].1 == s[name_index(
        s,
        k,
    )].1 by {
        assert(has_name(t, k));
        assert(k != x.0@);
        let j = name_index(t, k);
        assert(t[p] == x);
        let js = if j < p {
            j
        } else {
            j - 1
        };
        assert(t[j] == s[js]);
        lemma_pairs_map_at(s, js);
    }
    assert(pairs_map(t) =~= pairs_map(s).insert(x.0@, x.1)) by {
        lemma_pairs_map_at(t, p);
    }
}

proof fn lemma_pairs_map_update(s: Seq<(String, Preset)>, i: int, x: (String, Preset))
    requires
        unique_names(s),
        0 <= i < s.len(),
        s[i].0@ == x.0@,
    ensures
        unique_names(s.update(i, x)),
        pairs_map(s.update(i, x)) == pairs_map(s).insert(x.0@, x.1),
{
    let t = s.update(i, x);
    assert forall|a: int, b: int| 0 <= a < t.len() && 0 <= b < t.len() && a != b implies (
    #[trigger] t[a]).0@ != (#[trigger] t[b]).0@ by {
        assert(t[a].0@ == s[a].0@);
        assert(t[b].0@ == s[b].0@);
    }
    assert forall|k: Seq<char>| #[trigger] has_name(t, k) == has_name(s, k) by {
        if has_name(s, k) {
            let j = name_index(s, k);
            assert(t[j].0@ == s[j].0@);
        }
        if has_name(t, k) {
            let j = name_index(t, k);
            assert(t[j].0@ == s[j].0@);
        }
    }
    assert forall|k: Seq<char>| has_name(s, k) && k != x.0@ implies #[trigger] t[name_index(t, k)].1
        == s[name_index(s, k)].1 by {
        let j = name_index(s, k);
        assert(t[j].0@ == s[j].0@);
        assert(j != i);
        assert(t[j] == s[j]);
    }
    assert(pairs_map(t) =~= pairs_map(s).insert(x.0@, x.1)) by {
        lemma_pairs_map_at(t, i);
    }
}

proof fn lemma_pairs_map_remove(s: Seq<(String, Preset)>, i: int)
    requires
        unique_names(s),
        0 <= i < s.len(),
    ensures
        unique_names(s.remove(i)),
        pairs_map(s.remove(i)) == pairs_map(s).remove(s[i].0@),
{
    let t = s.remove(i);
    assert forall|a: int| 0 <= a < t.len() implies #[trigger] t[a] == s[if a < i {
        a
    } else {
        a + 1
    }] by {}
    assert forall|a: int, b: int| 0 <= a < t.len() && 0 <= b < t.len() && a != b implies (
    #[trigger] t[a]).0@ != (#[trigger] t[b]).0@ by {
        let sa = if a < i {
            a
        } else {
            a + 1
        };
        let sb = if b < i {
            b
        } else {
            b + 1
        };
        assert(t[a] == s[sa] && t[b] == s[sb]);
    }
    let gone = s[i].0@;
    assert forall|k: Seq<char>| #[trigger] has_name(t, k) == (has_name(s, k) && k != gone) by {
        if has_name(s, k) && k != gone {
            let j = name_index(s, k);
            assert(j != i);
            let jt = if j < i {
                j
            } else {
                j - 1
            };
            assert(t[jt] == s[j]);
        }
        if has_name(t, k) {
            let j = name_index(t, k);
            let js = if j < i {
                j
            } else {
                j + 1
            };
            assert(t[j] == s[js]);
            assert(js != i);
        }
    }
    assert forall|k: Seq<char>| has_name(t, k) implies #[trigger] t[name_index(t, k)].1 == s[name_index(
        s,
        k,
    )].1 by {
        let j = name_index(t, k);
        let js = if j < i {
            j
        } else {
            j + 1
        };
        assert(t[j] == s[js]);
        lemma_pairs_map_at(s, js);
    }
    assert(pairs_map(t) =~= pairs_map(s).remove(gone));
}

/// The preset store: its format version, the active preset, and the presets.
#[derive(Debug)]
pub struct SwitcherConfig {
    pub version: u32,
    pub active_preset: Option<String>,
    pub presets: PresetMap,
}

/// Whether the presets hold the built-in preset, and nothing else.
pub open spec fn only_builtin(m: Map<Seq<char>, Preset>) -> bool {
    &&& m.dom() == set![DEFAULT_GLM_PRESET_NAME@]
    &&& is_default_glm_preset(m[DEFAULT_GLM_PRESET_NAME@])
}

/// Whether `c` is the store of a first run: the current version, no active
/// preset, and the built-in preset alone.
pub open spec fn is_default_config(c: SwitcherConfig) -> bool {
    &&& c.version == CURRENT_CONFIG_VERSION
    &&& c.active_preset is None
    &&& only_builtin(c.presets@)
}

/// Whether `r` is `m` with the built-in preset added where `m` lacks an entry
/// under its name; an entry already there is kept as it is.
pub open spec fn with_builtin(m: Map<Seq<char>, Preset>, r: Map<Seq<char>, Preset>) -> bool {
    if m.contains_key(DEFAULT_GLM_PRESET_NAME@) {
        r == m
    } else {
        &&& r.contains_key(DEFAULT_GLM_PRESET_NAME@)
        &&& is_default_glm_preset(r[DEFAULT_GLM_PRESET_NAME@])
        &&& r == m.insert(DEFAULT_GLM_PRESET_NAME@, r[DEFAULT_GLM_PRESET_NAME@])
    }
}

impl Default for SwitcherConfig {
    fn default() -> (r: SwitcherConfig)
        ensures
            is_default_config(r),
    {
        let mut presets = PresetMap::new();
        presets.insert(DEFAULT_GLM_PRESET_NAME.to_owned(), default_glm_preset());
        proof {
            assert(presets@.dom() =~= set![DEFAULT_GLM_PRESET_NAME@]);
        }
        SwitcherConfig { version: CURRENT_CONFIG_VERSION, active_preset: None, presets }
    }
}

/// Adds the built-in preset where the store lacks one under its name.
pub fn ensure_builtin_glm_preset(cfg: SwitcherConfig) -> (r: SwitcherConfig)
    ensures
        r.version == cfg.version,
        r.active_preset == cfg.active_preset,
        with_builtin(cfg.presets@, r.presets@),
{
    let mut cfg = cfg;
    if !cfg.presets.contains_key(DEFAULT_GLM_PRESET_NAME) {
        cfg.presets.insert(DEFAULT_GLM_PRESET_NAME.to_owned(), default_glm_preset());
    }
    cfg
}

/// Whether `r` is the outcome owed by loading: the store of a first run where
/// nothing was stored; otherwise the stored store, refused where its version
/// is not the supported one, else with the built-in preset ensured.
pub open spec fn load_outcome(stored: Option<SwitcherConfig>, r: Result<SwitcherConfig, AppError>) -> bool {
    match stored {
        None => r matches Ok(c) && is_default_config(c),
        Some(s) => if s.version != CURRENT_CONFIG_VERSION {
            r matches Err(AppError::UnsupportedConfigVersion(v)) && v == s.version
        } else {
            r matches Ok(c) && c.version == s.version && c.active_preset == s.active_preset
                && with_builtin(s.presets@, c.presets@)
        },
    }
}

/// The store to work on, from what the store file held (`None` where there
/// is no file yet).
pub fn load_or_init(stored: Option<SwitcherConfig>) -> (r: Result<SwitcherConfig, AppError>)
    ensures
        load_outcome(stored, r),
{
    match stored {
        None => Ok(SwitcherConfig::default()),
        Some(cfg) => {
            if cfg.version != CURRENT_CONFIG_VERSION {
                return Err(AppError::UnsupportedConfigVersion(cfg.version));
            }
            Ok(ensure_builtin_glm_preset(cfg))
        },
    }
}

/// A store that loading handed out comes back from a second load with the
/// same version, active preset and presets.
pub proof fn lemma_load_keeps_loaded_store(
    stored: Option<SwitcherConfig>,
    first: SwitcherConfig,
    second: SwitcherConfig,
)
    requires
        load_outcome(stored, Ok(first)),
        load_outcome(Some(first), Ok(second)),
    ensures
        second.version == first.version,
        second.active_preset == first.active_preset,
        second.presets@ == first.presets@,
{
}

} // verus!
