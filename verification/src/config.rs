//! Builder-style provider and model configuration.
use vstd::prelude::*;

use crate::client::Client;
use crate::text::text_is;
use crate::types::F32Bits;

verus! {

/// Provider API type.
#[derive(Debug, Clone, Copy, PartialEq, Eq, Structural)]
pub enum ProviderType {
    OpenAi,
    Anthropic,
}

// ---------------------------------------------------------------------------
// Header maps
// ---------------------------------------------------------------------------

/// The map that a list of (name, value) pairs stands for; a later pair for a name
/// replaces an earlier one.
pub open spec fn pairs_map(s: Seq<(Seq<char>, Seq<char>)>) -> Map<Seq<char>, Seq<char>>
    decreases s.len(),
{
    if s.len() == 0 {
        Map::empty()
    } else {
        pairs_map(s.drop_last()).insert(s.last().0, s.last().1)
    }
}

/// No name occurs twice.
pub open spec fn distinct_names(s: Seq<(Seq<char>, Seq<char>)>) -> bool {
    forall|i: int, j: int| 0 <= i < s.len() && 0 <= j < s.len() && i != j ==> s[i].0 != s[j].0
}

proof fn lemma_pairs_map_update(s: Seq<(Seq<char>, Seq<char>)>, j: int, v: Seq<char>)
    requires
        0 <= j < s.len(),
        distinct_names(s),
    ensures
        pairs_map(s.update(j, (s[j].0, v))) =~= pairs_map(s).insert(s[j].0, v),
    decreases s.len(),
{
    let t = s.update(j, (s[j].0, v));
    if j == s.len() - 1 {
        assert(t.drop_last() =~= s.drop_last());
    } else {
        assert(t.drop_last() =~= s.drop_last().update(j, (s[j].0, v)));
        assert(distinct_names(s.drop_last()));
        lemma_pairs_map_update(s.drop_last(), j, v);
        assert(s.last().0 != s[j].0);
    }
}

/// The pairs after setting `k` to `v`: the pair for `k` gets the new value in place, or,
/// when `k` has none, a pair is added at the end.
pub open spec fn set_pair(s: Seq<(Seq<char>, Seq<char>)>, k: Seq<char>, v: Seq<char>) -> Seq<
    (Seq<char>, Seq<char>),
> {
    if exists|i: int| 0 <= i < s.len() && s[i].0 == k {
        s.map_values(|p: (Seq<char>, Seq<char>)| if p.0 == k {
            (k, v)
        } else {
            p
        })
    } else {
        s.push((k, v))
    }
}

proof fn lemma_pairs_map_absent(s: Seq<(Seq<char>, Seq<char>)>, k: Seq<char>)
    requires
        forall|i: int| 0 <= i < s.len() ==> s[i].0 != k,
    ensures
        !pairs_map(s).contains_key(k),
    decreases s.len(),
{
    if s.len() > 0 {
        lemma_pairs_map_absent(s.drop_last(), k);
    }
}

/// Extra HTTP headers: a map from header name to value that keeps the order in which
/// names were first set.
#[derive(Debug)]
pub struct Headers {
    pairs: Vec<(String, String)>,
}

impl View for Headers {
    type V = Map<Seq<char>, Seq<char>>;

    closed spec fn view(&self) -> Map<Seq<char>, Seq<char>> {
        pairs_map(self.pairs.deep_view())
    }
}

impl Headers {
    /// No name occurs twice.
    #[verifier::type_invariant]
    closed spec fn distinct(&self) -> bool {
        distinct_names(self.pairs.deep_view())
    }

    /// The pairs in the order they are sent.
    pub closed spec fn pair_list(&self) -> Seq<(Seq<char>, Seq<char>)> {
        self.pairs.deep_view()
    }

    pub fn new() -> (res: Headers)
        ensures
            res@ == Map::<Seq<char>, Seq<char>>::empty(),
            res.pair_list() == Seq::<(Seq<char>, Seq<char>)>::empty(),
    {
        let res = Headers { pairs: Vec::new() };
        assert(res.pairs.deep_view() =~= Seq::<(Seq<char>, Seq<char>)>::empty());
        res
    }

    /// Sets `name` to `value`, replacing the value it had.
    pub fn insert(&mut self, name: String, value: String)
        ensures
            final(self)@ == old(self)@.insert(name@, value@),
            final(self).pair_list() == set_pair(old(self).pair_list(), name@, value@),
    {
        proof {
            use_type_invariant(&*self);
        }
        let mut pairs: Vec<(String, String)> = Vec::new();
        std::mem::swap(&mut pairs, &mut self.pairs);
        let ghost s = pairs.deep_view();
        assert(s == old(self).pairs.deep_view());
        let n = pairs.len();
        let mut found = false;
        for i in 0..n
            invariant
                n == pairs.len(),
                !found ==> s == pairs.deep_view(),
                found ==> distinct_names(pairs.deep_view()) && pairs_map(pairs.deep_view())
                    =~= pairs_map(s).insert(name@, value@) && pairs.deep_view() =~= set_pair(
                    s,
                    name@,
                    value@,
                ),
                distinct_names(s),
                !found ==> forall|m: int| 0 <= m < i ==> s[m].0 != name@,
        {
            if !found && pairs[i].0 == name {
                proof {
                    lemma_pairs_map_update(s, i as int, value@);
                }
                pairs.set(i, (name.clone(), value.clone()));
                assert(pairs.deep_view() =~= s.update(i as int, (s[i as int].0, value@)));
                proof {
                    assert(s[i as int].0 == name@);
                    assert(set_pair(s, name@, value@) =~= s.update(i as int, (name@, value@)));
                }
                found = true;
            }
        }
        if !found {
            proof {
                lemma_pairs_map_absent(s, name@);
            }
            let ghost pair = (name@, value@);
            pairs.push((name, value));
            assert(pairs.deep_view() =~= s.push(pair));
            assert(pairs.deep_view().drop_last() =~= s);
            assert(!(exists|i: int| 0 <= i < s.len() && s[i].0 == name@));
        }
        self.pairs = pairs;
    }

    /// The value set for `name`, if any.
    pub fn get(&self, name: &str) -> (res: Option<&str>)
        ensures
            res.deep_view() == (if self@.contains_key(name@) {
                Some(self@[name@])
            } else {
                None
            }),
    {
        proof {
            use_type_invariant(self);
        }
        let ghost s = self.pairs.deep_view();
        let n = self.pairs.len();
        for i in 0..n
            invariant
                n == self.pairs.len(),
                s == self.pairs.deep_view(),
                distinct_names(s),
                forall|m: int| 0 <= m < i ==> s[m].0 != name@,
        {
            if text_is(self.pairs[i].0.as_str(), name) {
                proof {
                    lemma_pairs_map_update(s, i as int, s[i as int].1);
                    assert(s.update(i as int, (s[i as int].0, s[i as int].1)) =~= s);
                }
                return Some(self.pairs[i].1.as_str());
            }
        }
        proof {
            lemma_pairs_map_absent(s, name@);
        }
        None
    }

    /// The (name, value) pairs, in the order they are sent.
    pub fn pairs(&self) -> (res: &Vec<(String, String)>)
        ensures
            res.deep_view() == self.pair_list(),
            distinct_names(res.deep_view()),
            self@ == pairs_map(res.deep_view()),
    {
        proof {
            use_type_invariant(self);
        }
        &self.pairs
    }

    /// The (name, value) pairs, in the order they are sent, taken out of the map.
    pub fn pairs_owned(self) -> (res: Vec<(String, String)>)
        ensures
            res.deep_view() == self.pair_list(),
    {
        self.pairs
    }

    /// A copy with the same pairs.
    pub fn duplicate(&self) -> (res: Headers)
        ensures
            res.pair_list() == self.pair_list(),
            res@ == self@,
    {
        proof {
            use_type_invariant(self);
        }
        let mut pairs: Vec<(String, String)> = Vec::new();
        let n = self.pairs.len();
        for i in 0..n
            invariant
                n == self.pairs.len(),
                pairs.deep_view() =~= self.pairs.deep_view().take(i as int),
        {
            let ghost before = pairs.deep_view();
            let p = (self.pairs[i].0.clone(), self.pairs[i].1.clone());
            pairs.push(p);
            assert(pairs.deep_view() =~= before.push(p.deep_view()));
        }
        assert(self.pairs.deep_view().take(n as int) =~= self.pairs.deep_view());
        Headers { pairs }
    }
}

impl Clone for Headers {
    fn clone(&self) -> (res: Headers)
        ensures
            res@ == self@,
            res.pair_list() == self.pair_list(),
    {
        self.duplicate()
    }
}

// ---------------------------------------------------------------------------
// Model configuration
// ---------------------------------------------------------------------------

/// `1.0f32` as bits.
pub const ONE_F32_BITS: u32 = 0x3f80_0000;

/// Configuration for a specific LLM model.
#[derive(Debug, Clone)]
pub struct LlmConfig {
    pub id: i64,
    pub model_name: String,
    pub model_id: String,
    pub max_output_token: i32,
    pub max_input_token: i32,
    pub max_token: i32,
    pub thinking: bool,
    pub image_understanding: bool,
    pub struct_output: bool,
    pub tool_use: bool,
    pub temperature: F32Bits,
    pub top_p: F32Bits,
}

/// The model of [`LlmConfig`], with text as `Seq<char>` and lists as `Seq`.
pub struct LlmConfigModel {
    pub id: i64,
    pub model_name: Seq<char>,
    pub model_id: Seq<char>,
    pub max_output_token: i32,
    pub max_input_token: i32,
    pub max_token: i32,
    pub thinking: bool,
    pub image_understanding: bool,
    pub struct_output: bool,
    pub tool_use: bool,
    pub temperature: F32Bits,
    pub top_p: F32Bits,
}

impl DeepView for LlmConfig {
    type V = LlmConfigModel;

    open spec fn deep_view(&self) -> LlmConfigModel {
        LlmConfigModel {
            id: self.id,
            model_name: self.model_name@,
            model_id: self.model_id@,
            max_output_token: self.max_output_token,
            max_input_token: self.max_input_token,
            max_token: self.max_token,
            thinking: self.thinking,
            image_understanding: self.image_understanding,
            struct_output: self.struct_output,
            tool_use: self.tool_use,
            temperature: self.temperature,
            top_p: self.top_p,
        }
    }
}

impl LlmConfig {
    /// A model configuration with every capability off and temperature and top-p 1.0.
    /// `id` is the identifier that the caller assigned to it.
    pub fn new(
        id: i64,
        model_name: &str,
        model_id: &str,
        max_output_token: i32,
        max_input_token: i32,
        max_token: i32,
    ) -> (res: LlmConfig)
        ensures
            res.deep_view() == (LlmConfigModel {
                id,
                model_name: model_name@,
                model_id: model_id@,
                max_output_token,
                max_input_token,
                max_token,
                thinking: false,
                image_understanding: false,
                struct_output: false,
                tool_use: false,
                temperature: F32Bits { bits: ONE_F32_BITS },
                top_p: F32Bits { bits: ONE_F32_BITS },
            }),
    {
        LlmConfig {
            id,
            model_name: model_name.to_owned(),
            model_id: model_id.to_owned(),
            max_output_token,
            max_input_token,
            max_token,
            thinking: false,
            image_understanding: false,
            struct_output: false,
            tool_use: false,
            temperature: F32Bits { bits: ONE_F32_BITS },
            top_p: F32Bits { bits: ONE_F32_BITS },
        }
    }

    pub fn thinking(self, v: bool) -> (res: LlmConfig)
        ensures
            res.deep_view() == (LlmConfigModel { thinking: v, ..self.deep_view() }),
    {
        LlmConfig { thinking: v, ..self }
    }

    pub fn image_understanding(self, v: bool) -> (res: LlmConfig)
        ensures
            res.deep_view() == (LlmConfigModel { image_understanding: v, ..self.deep_view() }),
    {
        LlmConfig { image_understanding: v, ..self }
    }

    pub fn struct_output(self, v: bool) -> (res: LlmConfig)
        ensures
            res.deep_view() == (LlmConfigModel { struct_output: v, ..self.deep_view() }),
    {
        LlmConfig { struct_output: v, ..self }
    }

    pub fn tool_use(self, v: bool) -> (res: LlmConfig)
        ensures
            res.deep_view() == (LlmConfigModel { tool_use: v, ..self.deep_view() }),
    {
        LlmConfig { tool_use: v, ..self }
    }

    pub fn temperature(self, v: F32Bits) -> (res: LlmConfig)
        ensures
            res.deep_view() == (LlmConfigModel { temperature: v, ..self.deep_view() }),
    {
        LlmConfig { temperature: v, ..self }
    }

    pub fn top_p(self, v: F32Bits) -> (res: LlmConfig)
        ensures
            res.deep_view() == (LlmConfigModel { top_p: v, ..self.deep_view() }),
    {
        LlmConfig { top_p: v, ..self }
    }
}

// ---------------------------------------------------------------------------
// Provider configuration
// ---------------------------------------------------------------------------

/// Configuration for an LLM provider (vendor endpoint).
#[derive(Debug, Clone)]
pub struct LlmProviderConfig {
    pub id: i64,
    pub provider_name: String,
    pub base_url: String,
    pub provider_type: ProviderType,
    pub api_key: String,
    pub custom_header: Headers,
}

impl LlmProviderConfig {
    /// A provider configuration with no custom headers. `id` is the identifier that the
    /// caller assigned to it.
    pub fn new(
        id: i64,
        provider_name: &str,
        base_url: &str,
        provider_type: ProviderType,
        api_key: &str,
    ) -> (res: LlmProviderConfig)
        ensures
            res.id == id,
            res.provider_name@ == provider_name@,
            res.base_url@ == base_url@,
            res.provider_type == provider_type,
            res.api_key@ == api_key@,
            res.custom_header@ == Map::<Seq<char>, Seq<char>>::empty(),
            res.custom_header.pair_list() == Seq::<(Seq<char>, Seq<char>)>::empty(),
    {
        LlmProviderConfig {
            id,
            provider_name: provider_name.to_owned(),
            base_url: base_url.to_owned(),
            provider_type,
            api_key: api_key.to_owned(),
            custom_header: Headers::new(),
        }
    }

    /// Sets one custom header, replacing the value it had.
    pub fn custom_header(self, key: &str, value: &str) -> (res: LlmProviderConfig)
        ensures
            res.custom_header@ == self.custom_header@.insert(key@, value@),
            res.custom_header.pair_list() == set_pair(self.custom_header.pair_list(), key@, value@),
            res.id == self.id,
            res.provider_name == self.provider_name,
            res.base_url == self.base_url,
            res.provider_type == self.provider_type,
            res.api_key == self.api_key,
    {
        let mut s = self;
        s.custom_header.insert(key.to_owned(), value.to_owned());
        s
    }

    /// Replaces all custom headers.
    pub fn custom_headers(self, headers: Headers) -> (res: LlmProviderConfig)
        ensures
            res.custom_header == headers,
            res.id == self.id,
            res.provider_name == self.provider_name,
            res.base_url == self.base_url,
            res.provider_type == self.provider_type,
            res.api_key == self.api_key,
    {
        LlmProviderConfig { custom_header: headers, ..self }
    }

    /// Build a [`Client`] from this provider configuration.
    pub fn build_client(&self) -> (res: Client)
        ensures
            res.spec_from_config(*self),
    {
        Client::from_provider(self)
    }
}

} // verus!
