//! The unified client: which provider it talks to, and the HTTP call that a chat request
//! becomes. The call itself is made by the transport.
use vstd::prelude::*;

use crate::anthropic;
use crate::config::{Headers, LlmProviderConfig, ProviderType};
use crate::openai;
use crate::text::concat2;
use crate::types::ChatRequest;

verus! {

/// The Anthropic API version that is sent.
pub open spec fn anthropic_api_version() -> Seq<char> {
    "2023-06-01"@
}

pub open spec fn openai_default_base_url() -> Seq<char> {
    "https://api.openai.com/v1"@
}

pub open spec fn anthropic_default_base_url() -> Seq<char> {
    "https://api.anthropic.com"@
}

enum Provider {
    OpenAi { api_key: String, base_url: String, custom_headers: Headers },
    Anthropic {
        api_key: String,
        base_url: String,
        api_version: String,
        custom_headers: Headers,
    },
}

/// What a client is: the provider, where it is reached, with which key, version and
/// extra headers.
pub struct ClientModel {
    pub provider_type: ProviderType,
    pub api_key: Seq<char>,
    pub base_url: Seq<char>,
    /// The `anthropic-version` sent; `None` for OpenAI.
    pub api_version: Option<Seq<char>>,
    pub custom_headers: Seq<(Seq<char>, Seq<char>)>,
}

/// Unified LLM client that works with both OpenAI and Anthropic APIs.
pub struct Client {
    provider: Provider,
}

impl View for Client {
    type V = ClientModel;

    closed spec fn view(&self) -> ClientModel {
        match self.provider {
            Provider::OpenAi { api_key, base_url, custom_headers } => ClientModel {
                provider_type: ProviderType::OpenAi,
                api_key: api_key@,
                base_url: base_url@,
                api_version: None,
                custom_headers: custom_headers.pair_list(),
            },
            Provider::Anthropic { api_key, base_url, api_version, custom_headers } => ClientModel {
                provider_type: ProviderType::Anthropic,
                api_key: api_key@,
                base_url: base_url@,
                api_version: Some(api_version@),
                custom_headers: custom_headers.pair_list(),
            },
        }
    }
}

/// The provider request body.
pub enum WireBody {
    OpenAi(openai::wire::Request),
    Anthropic(anthropic::wire::Request),
}

/// An HTTP POST to make: where, with which headers (in order), and the body to send as
/// JSON.
pub struct HttpCall {
    pub url: String,
    pub headers: Vec<(String, String)>,
    pub body: WireBody,
}

/// The headers of a call: authentication first, then the custom headers.
pub open spec fn call_headers(c: ClientModel) -> Seq<(Seq<char>, Seq<char>)> {
    match c.provider_type {
        ProviderType::OpenAi => seq![("Authorization"@, "Bearer "@ + c.api_key)] + c.custom_headers,
        ProviderType::Anthropic => seq![
            ("x-api-key"@, c.api_key),
            ("anthropic-version"@, c.api_version.unwrap_or(Seq::empty())),
        ] + c.custom_headers,
    }
}

/// The endpoint of a chat call.
pub open spec fn call_url(c: ClientModel) -> Seq<char> {
    match c.provider_type {
        ProviderType::OpenAi => c.base_url + "/chat/completions"@,
        ProviderType::Anthropic => c.base_url + "/v1/messages"@,
    }
}

impl Client {
    /// A client built from a provider configuration.
    pub open spec fn spec_from_config(self, config: LlmProviderConfig) -> bool {
        self@ == ClientModel {
            provider_type: config.provider_type,
            api_key: config.api_key@,
            base_url: config.base_url@,
            api_version: match config.provider_type {
                ProviderType::OpenAi => None,
                ProviderType::Anthropic => Some(anthropic_api_version()),
            },
            custom_headers: config.custom_header.pair_list(),
        }
    }

    /// Create a client for the OpenAI API (`https://api.openai.com/v1`).
    pub fn openai(api_key: &str) -> (res: Client)
        ensures
            res@ == (ClientModel {
                provider_type: ProviderType::OpenAi,
                api_key: api_key@,
                base_url: openai_default_base_url(),
                api_version: None,
                custom_headers: Seq::empty(),
            }),
    {
        Self::openai_with_base_url(api_key, "https://api.openai.com/v1")
    }

    /// Create a client for an OpenAI-compatible API with a custom base URL.
    pub fn openai_with_base_url(api_key: &str, base_url: &str) -> (res: Client)
        ensures
            res@ == (ClientModel {
                provider_type: ProviderType::OpenAi,
                api_key: api_key@,
                base_url: base_url@,
                api_version: None,
                custom_headers: Seq::empty(),
            }),
    {
        Client {
            provider: Provider::OpenAi {
                api_key: api_key.to_owned(),
                base_url: base_url.to_owned(),
                custom_headers: Headers::new(),
            },
        }
    }

    /// Create a client for the Anthropic API (`https://api.anthropic.com`).
    pub fn anthropic(api_key: &str) -> (res: Client)
        ensures
            res@ == (ClientModel {
                provider_type: ProviderType::Anthropic,
                api_key: api_key@,
                base_url: anthropic_default_base_url(),
                api_version: Some(anthropic_api_version()),
                custom_headers: Seq::empty(),
            }),
    {
        Self::anthropic_with_base_url(api_key, "https://api.anthropic.com")
    }

    /// Create a client for an Anthropic-compatible API with a custom base URL.
    pub fn anthropic_with_base_url(api_key: &str, base_url: &str) -> (res: Client)
        ensures
            res@ == (ClientModel {
                provider_type: ProviderType::Anthropic,
                api_key: api_key@,
                base_url: base_url@,
                api_version: Some(anthropic_api_version()),
                custom_headers: Seq::empty(),
            }),
    {
        Client {
            provider: Provider::Anthropic {
                api_key: api_key.to_owned(),
                base_url: base_url.to_owned(),
                api_version: "2023-06-01".to_owned(),
                custom_headers: Headers::new(),
            },
        }
    }

    /// Create a client from a [`LlmProviderConfig`].
    pub fn from_provider(config: &LlmProviderConfig) -> (res: Client)
        ensures
            res.spec_from_config(*config),
    {
        match config.provider_type {
            ProviderType::OpenAi => Client {
                provider: Provider::OpenAi {
                    api_key: config.api_key.clone(),
                    base_url: config.base_url.clone(),
                    custom_headers: config.custom_header.duplicate(),
                },
            },
            ProviderType::Anthropic => Client {
                provider: Provider::Anthropic {
                    api_key: config.api_key.clone(),
                    base_url: config.base_url.clone(),
                    api_version: "2023-06-01".to_owned(),
                    custom_headers: config.custom_header.duplicate(),
                },
            },
        }
    }

    /// The provider this client talks to.
    pub fn provider_type(&self) -> (res: ProviderType)
        ensures
            res == self@.provider_type,
    {
        match &self.provider {
            Provider::OpenAi { .. } => ProviderType::OpenAi,
            Provider::Anthropic { .. } => ProviderType::Anthropic,
        }
    }

    /// The HTTP call for a chat request; `stream` asks for an event stream.
    pub fn prepare_call(&self, request: ChatRequest, stream: bool) -> (res: HttpCall)
        ensures
            res.url@ == call_url(self@),
            res.headers.deep_view() == call_headers(self@),
            match self@.provider_type {
                ProviderType::OpenAi => res.body matches WireBody::OpenAi(b) && b.deep_view()
                    == openai::request_for(request.deep_view(), stream),
                ProviderType::Anthropic => res.body matches WireBody::Anthropic(b) && b.deep_view()
                    == anthropic::request_for(request.deep_view(), stream),
            },
    {
        match &self.provider {
            Provider::OpenAi { api_key, base_url, custom_headers } => {
                let url = concat2(base_url.as_str(), "/chat/completions");
                let mut headers: Vec<(String, String)> = Vec::new();
                headers.push(("Authorization".to_owned(), concat2("Bearer ", api_key.as_str())));
                let ghost first = headers.deep_view();
                let mut extra = custom_headers.duplicate().pairs_owned();
                headers.append(&mut extra);
                assert(headers.deep_view() =~= first + custom_headers.pair_list());
                let body = WireBody::OpenAi(openai::convert_request(request, stream));
                HttpCall { url, headers, body }
            },
            Provider::Anthropic { api_key, base_url, api_version, custom_headers } => {
                let url = concat2(base_url.as_str(), "/v1/messages");
                let mut headers: Vec<(String, String)> = Vec::new();
                headers.push(("x-api-key".to_owned(), api_key.clone()));
                headers.push(("anthropic-version".to_owned(), api_version.clone()));
                let ghost first = headers.deep_view();
                let mut extra = custom_headers.duplicate().pairs_owned();
                headers.append(&mut extra);
                assert(headers.deep_view() =~= first + custom_headers.pair_list());
                let body = WireBody::Anthropic(anthropic::convert_request(request, stream));
                HttpCall { url, headers, body }
            },
        }
    }
}

} // verus!
