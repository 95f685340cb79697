//! The configuration: the active model, the active provider's id, and the
//! declared providers; and its resolution into what a client needs.
//!
//! Reading the file, decoding the TOML and reading the environment happen
//! outside the library.

use vstd::prelude::*;
use vstd::string::*;

use crate::text::concat3;
use crate::types::ApiError;

verus! {

/// The wire protocol a provider speaks.
#[derive(Debug, Clone, Copy, PartialEq, Eq, Structural)]
pub enum WireApi {
    /// `POST <base>/responses`, the default.
    Responses,
    /// `POST <base>/chat/completions`.
    Chat,
}

impl Default for WireApi {
    fn default() -> (r: Self)
        ensures
            r == WireApi::Responses,
    {
        WireApi::Responses
    }
}

/// One declared provider.
#[derive(Debug)]
pub struct ModelProviderInfo {
    /// Display name; empty when not given.
    pub name: String,
    /// Base URL, already carrying the API version prefix.
    pub base_url: Option<String>,
    /// Name of an environment variable holding the API key.
    pub env_key: Option<String>,
    /// API key written in the configuration, used when `env_key` is not
    /// given or names an unset or empty variable.
    pub api_key: Option<String>,
    pub wire_api: WireApi,
}

/// The configuration file's content. The providers are the entries of the
/// `[model_providers.<id>]` tables, each with its id; ids are unique in a
/// file, and a lookup takes the first entry with the id.
#[derive(Debug)]
pub struct ConfigToml {
    pub model: String,
    pub model_provider: String,
    pub model_providers: Vec<(String, ModelProviderInfo)>,
}

/// The runtime-ready view of the active provider.
#[derive(Debug)]
pub struct ResolvedConfig {
    pub model: String,
    pub provider_id: String,
    pub provider_display_name: String,
    pub base_url: String,
    pub api_key: String,
    pub wire_api: WireApi,
}

/// The abstract form of a [`ResolvedConfig`].
pub struct ResolvedView {
    pub model: Seq<char>,
    pub provider_id: Seq<char>,
    pub provider_display_name: Seq<char>,
    pub base_url: Seq<char>,
    pub api_key: Seq<char>,
    pub wire_api: WireApi,
}

impl View for ResolvedConfig {
    type V = ResolvedView;

    open spec fn view(&self) -> ResolvedView {
        ResolvedView {
            model: self.model@,
            provider_id: self.provider_id@,
            provider_display_name: self.provider_display_name@,
            base_url: self.base_url@,
            api_key: self.api_key@,
            wire_api: self.wire_api,
        }
    }
}

/// Whether `i` is the position of the first provider with the id `id`.
pub open spec fn is_first_with_id(ps: Seq<(String, ModelProviderInfo)>, id: Seq<char>, i: int) -> bool {
    &&& 0 <= i < ps.len()
    &&& ps[i].0@ == id
    &&& forall|j: int| 0 <= j < i ==> (#[trigger] ps[j]).0@ != id
}

/// The provider declared under `id`, if any.
pub open spec fn find_provider(ps: Seq<(String, ModelProviderInfo)>, id: Seq<char>) -> Option<ModelProviderInfo> {
    if exists|i: int| is_first_with_id(ps, id, i) {
        Some(ps[choose|i: int| is_first_with_id(ps, id, i)].1)
    } else {
        None
    }
}

/// Whether the ids of the providers are unique, as they are in a file.
pub open spec fn ids_unique(ps: Seq<(String, ModelProviderInfo)>) -> bool {
    forall|i: int, j: int| 0 <= i < j < ps.len() ==> (#[trigger] ps[i]).0@ != (#[trigger] ps[j]).0@
}

/// The API key of a provider, or the message of the error when it has none:
/// the environment's value of `env_key` when that is set and not empty, else
/// the configured `api_key`.
pub open spec fn api_key_spec(id: Seq<char>, p: ModelProviderInfo, env: Option<String>) -> Result<Seq<char>, Seq<char>> {
    match p.env_key {
        Some(var) => {
            if env is Some && env->0@.len() > 0 {
                Ok(env->0@)
            } else {
                match p.api_key {
                    Some(k) => Ok(k@),
                    None => Err(
                        "Provider `"@ + id + "`: env var `"@ + var@
                            + "` is unset and no `api_key` fallback is configured"@,
                    ),
                }
            }
        },
        None => match p.api_key {
            Some(k) => Ok(k@),
            None => Err("Provider `"@ + id + "` has neither `env_key` nor `api_key`"@),
        },
    }
}

/// What resolving a configuration gives, with `env` the environment's value
/// of the active provider's `env_key` (`None`: unset or not given).
pub open spec fn resolve_spec(cfg: ConfigToml, env: Option<String>) -> Result<ResolvedView, Seq<char>> {
    let id = cfg.model_provider@;
    match find_provider(cfg.model_providers@, id) {
        None => Err("Model provider `"@ + id + "` not found under [model_providers.*]"@),
        Some(p) => match p.base_url {
            None => Err("Model provider `"@ + id + "` is missing `base_url`"@),
            Some(base) => match api_key_spec(id, p, env) {
                Ok(key) => Ok(
                    ResolvedView {
                        model: cfg.model@,
                        provider_id: id,
                        provider_display_name: p.name@,
                        base_url: base@,
                        api_key: key,
                        wire_api: p.wire_api,
                    },
                ),
                Err(m) => Err(m),
            },
        },
    }
}

/// The abstract form of what `resolve` returns.
pub open spec fn resolved_view(r: Result<ResolvedConfig, ApiError>) -> Result<ResolvedView, Seq<char>> {
    match r {
        Ok(c) => Ok(c@),
        Err(e) => Err(e.msg()),
    }
}

impl ConfigToml {
    /// The position of the first provider whose id is `model_provider`.
    fn position_of_active(&self) -> (r: Option<usize>)
        ensures
            match r {
                Some(i) => is_first_with_id(self.model_providers@, self.model_provider@, i as int),
                None => forall|i: int|
                    0 <= i < self.model_providers@.len() ==> (#[trigger] self.model_providers@[i]).0@
                        != self.model_provider@,
            },
    {
        let n: usize = self.model_providers.len();
        let mut i: usize = 0;
        while i < n
            invariant
                n == self.model_providers@.len(),
                i <= n,
                forall|j: int|
                    0 <= j < i ==> (#[trigger] self.model_providers@[j]).0@ != self.model_provider@,
            decreases n - i,
        {
            if self.model_providers[i].0 == self.model_provider {
                return Some(i);
            }
            i = i + 1;
        }
        None
    }

    /// The name of the environment variable that holds the active provider's
    /// API key, when the active provider exists and names one.
    pub fn active_env_key(&self) -> (r: Option<String>)
        ensures
            match find_provider(self.model_providers@, self.model_provider@) {
                Some(p) => match p.env_key {
                    Some(k) => r is Some && r->0@ == k@,
                    None => r is None,
                },
                None => r is None,
            },
    {
        let pos = self.position_of_active();
        match pos {
            Some(i) => {
                proof {
                    lemma_first_unique(self.model_providers@, self.model_provider@, i as int);
                }
                match &self.model_providers[i].1.env_key {
                    Some(k) => Some(k.clone()),
                    None => None,
                }
            },
            None => None,
        }
    }

    /// Whether no two providers share an id, as in a configuration file,
    /// whose `[model_providers.<id>]` tables are keyed by id.
    pub fn has_unique_ids(&self) -> (b: bool)
        ensures
            b == ids_unique(self.model_providers@),
    {
        let ps = &self.model_providers;
        assert(ps@ == self.model_providers@);
        let n: usize = ps.len();
        let mut i: usize = 0;
        while i < n
            invariant
                ps@ == self.model_providers@,
                n == ps@.len(),
                i <= n,
                forall|a: int, b: int| 0 <= a < b < ps@.len() && a < i ==> (#[trigger] ps@[a]).0@ != (#[trigger] ps@[b]).0@,
            decreases n - i,
        {
            let mut j: usize = i + 1;
            while j < n
                invariant
                    ps@ == self.model_providers@,
                    n == ps@.len(),
                    i < n,
                    i + 1 <= j <= n,
                    forall|a: int, b: int| 0 <= a < b < ps@.len() && a < i ==> (#[trigger] ps@[a]).0@ != (#[trigger] ps@[b]).0@,
                    forall|b: int| i < b < j ==> ps@[i as int].0@ != (#[trigger] ps@[b]).0@,
                decreases n - j,
            {
                if ps[i].0 == ps[j].0 {
                    proof {
                        assert(!ids_unique(ps@)) by {
                            assert(ps@[i as int].0@ == ps@[j as int].0@);
                        }
                    }
                    return false;
                }
                j = j + 1;
            }
            i = i + 1;
        }
        true
    }

    /// Resolves the active provider: it must be declared and have a base
    /// URL, and an API key must come from the environment variable it names
    /// (`env` holds that variable's value) or from its configured key.
    /// Provider ids are unique, as the keys of the file's provider tables.
    pub fn resolve(self, env: Option<String>) -> (r: Result<ResolvedConfig, ApiError>)
        requires
            ids_unique(self.model_providers@),
        ensures
            resolved_view(r) == resolve_spec(self, env),
            forall|i: int|
                #![trigger self.model_providers@[i]]
                0 <= i < self.model_providers@.len() && self.model_providers@[i].0@ == self.model_provider@
                    && self.model_providers@[i].1.base_url is Some && self.model_providers@[i].1.env_key is Some
                    && env is Some && env->0@.len() > 0 ==> r is Ok && r->Ok_0.api_key@ == env->0@,
    {
        proof {
            assert forall|i: int|
                #![trigger self.model_providers@[i]]
                0 <= i < self.model_providers@.len() && self.model_providers@[i].0@ == self.model_provider@
                    && self.model_providers@[i].1.base_url is Some && self.model_providers@[i].1.env_key is Some
                    && env is Some && env->0@.len() > 0 implies resolve_spec(self, env) is Ok
                && resolve_spec(self, env)->Ok_0.api_key == env->0@ by {
                crate::laws_content::law_resolve_environment_key_wins(self, env, i);
            }
        }
        let ghost cfg = self;
        let pos = self.position_of_active();
        let ConfigToml { model, model_provider, mut model_providers } = self;
        let i: usize = match pos {
            Some(i) => i,
            None => {
                return Err(
                    ApiError::Stream(
                        concat3(
                            "Model provider `",
                            model_provider.as_str(),
                            "` not found under [model_providers.*]",
                        ),
                    ),
                );
            },
        };
        proof {
            lemma_first_unique(cfg.model_providers@, cfg.model_provider@, i as int);
        }
        let (_, provider) = model_providers.remove(i);
        let ModelProviderInfo { name, base_url, env_key, api_key, wire_api } = provider;
        let base_url = match base_url {
            Some(b) => b,
            None => {
                return Err(
                    ApiError::Stream(
                        concat3("Model provider `", model_provider.as_str(), "` is missing `base_url`"),
                    ),
                );
            },
        };
        let key: String = match env_key {
            Some(var) => {
                let from_env = match env {
                    Some(v) => if !v.as_str().is_empty() {
                        Some(v)
                    } else {
                        None
                    },
                    None => None,
                };
                match from_env {
                    Some(v) => v,
                    None => match api_key {
                        Some(k) => k,
                        None => {
                            let mut m = concat3("Provider `", model_provider.as_str(), "`: env var `");
                            m.append(var.as_str());
                            m.append("` is unset and no `api_key` fallback is configured");
                            return Err(ApiError::Stream(m));
                        },
                    },
                }
            },
            None => match api_key {
                Some(k) => k,
                None => {
                    return Err(
                        ApiError::Stream(
                            concat3(
                                "Provider `",
                                model_provider.as_str(),
                                "` has neither `env_key` nor `api_key`",
                            ),
                        ),
                    );
                },
            },
        };
        Ok(
            ResolvedConfig {
                model,
                provider_id: model_provider,
                provider_display_name: name,
                base_url,
                api_key: key,
                wire_api,
            },
        )
    }
}

/// The first position with an id is the one `find_provider` picks.
proof fn lemma_first_unique(ps: Seq<(String, ModelProviderInfo)>, id: Seq<char>, i: int)
    requires
        is_first_with_id(ps, id, i),
    ensures
        find_provider(ps, id) == Some(ps[i].1),
{
    let k: int = choose|k: int| is_first_with_id(ps, id, k);
    assert(is_first_with_id(ps, id, k));
    if k < i {
        assert(ps[k].0@ != id);
    } else if i < k {
        assert(ps[i].0@ != id);
    }
}

} // verus!
