use vstd::prelude::*;
use vstd::hash_map::StringHashMap;
use crate::text::{lower_of, to_lowercase};

verus! {

/// Declares serde_json's value type so adapters can carry a raw vendor
/// payload through untouched; the library never looks inside one.
#[verifier::external_type_specification]
#[verifier::external_body]
pub struct ExValue(serde_json::Value);

/// Delivery status of one message, as providers report it.
#[derive(Clone, Copy, Debug, PartialEq, Eq, Structural)]
pub enum MessageStatus {
    Pending,
    Sent,
    Delivered,
    Failed,
    Rejected,
}

impl Default for MessageStatus {
    fn default() -> (r: Self)
        ensures
            r == MessageStatus::Pending,
    {
        MessageStatus::Pending
    }
}

/// Outcome of one send attempt. Immutable once constructed; provider-side
/// failures are reported here, never by panicking.
#[derive(Clone, Debug)]
pub struct SendResult {
    pub success: bool,
    pub provider_message_id: Option<String>,
    pub status: MessageStatus,
    pub error_code: Option<String>,
    pub error_message: Option<String>,
    pub raw_response: Option<serde_json::Value>,
    /// Cost of the attempt in the provider's minor currency unit.
    pub cost: Option<u64>,
    pub segments: u32,
}

impl Default for SendResult {
    fn default() -> (r: Self)
        ensures
            r.success == false,
            r.provider_message_id is None,
            r.status == MessageStatus::Pending,
            r.error_code is None,
            r.error_message is None,
            r.raw_response is None,
            r.cost is None,
            r.segments == 0,
    {
        SendResult {
            success: false,
            provider_message_id: None,
            status: MessageStatus::Pending,
            error_code: None,
            error_message: None,
            raw_response: None,
            cost: None,
            segments: 0,
        }
    }
}

/// A provider's delivery callback, normalized to one shape.
#[derive(Clone, Debug)]
pub struct WebhookEvent {
    pub provider_message_id: String,
    pub status: MessageStatus,
    /// Seconds since the Unix epoch, when the provider reported one.
    pub timestamp: Option<u64>,
    pub error_code: Option<String>,
    pub error_message: Option<String>,
    pub raw_payload: Option<serde_json::Value>,
}

/// Typed lookup failure of the registry.
#[derive(Clone, Debug)]
pub enum AdapterError {
    UnknownProvider(String),
}

impl AdapterError {
    /// The error rendered as text, as a caller would display it.
    pub fn message(&self) -> (r: String)
        ensures
            r@ == "Unknown provider: "@ + self->UnknownProvider_0@,
    {
        match self {
            AdapterError::UnknownProvider(n) => {
                String::from_str("Unknown provider: ").concat(n.as_str())
            },
        }
    }
}

/// Capability flags of one adapter, as data: which optional parts of the
/// interface the adapter actually implements.
#[derive(Clone, Copy, Debug, PartialEq, Eq, Structural)]
pub struct AdapterCaps {
    pub mms: bool,
    pub whatsapp: bool,
    pub rcs: bool,
    pub webhook_validator: bool,
    pub webhook_parser: bool,
    pub health_check: bool,
}

/// The uniform, capability-tagged provider interface. Sending text is
/// mandatory; everything else has a default for adapters that lack the
/// capability, so the registry and router treat all providers alike.
pub trait BaseProviderAdapter {
    /// The adapter's stable provider identifier.
    spec fn spec_name(&self) -> Seq<char>;

    /// Which optional capabilities this adapter declares.
    spec fn spec_caps(&self) -> AdapterCaps;

    fn name(&self) -> (r: String)
        ensures
            r@ == self.spec_name(),
    ;

    fn capabilities(&self) -> (r: AdapterCaps)
        ensures
            r == self.spec_caps(),
    ;

    fn supports_mms(&self) -> (r: bool)
        ensures
            r == self.spec_caps().mms,
    {
        self.capabilities().mms
    }

    fn supports_whatsapp(&self) -> (r: bool)
        ensures
            r == self.spec_caps().whatsapp,
    {
        self.capabilities().whatsapp
    }

    fn supports_rcs(&self) -> (r: bool)
        ensures
            r == self.spec_caps().rcs,
    {
        self.capabilities().rcs
    }

    /// Lifecycle hook, called at most once before any send; a no-op for
    /// adapters with no external resources.
    fn initialize(&self) {
    }

    /// Lifecycle hook, called at most once at shutdown.
    fn close(&self) {
    }

    /// Mandatory send of a text message. Ordinary provider-side failures
    /// come back inside the result, never as a panic.
    fn send_sms(
        &self,
        to: &str,
        from: &str,
        body: &str,
        metadata: Option<Vec<(String, serde_json::Value)>>,
    ) -> SendResult;

    /// Send of a media message. An adapter that does not declare MMS
    /// support reports exactly this failure, so callers can tell "not
    /// supported" from "provider rejected".
    fn send_mms(
        &self,
        _to: &str,
        _from: &str,
        _text: Option<&str>,
        _media_urls: Vec<String>,
        _metadata: Option<Vec<(String, serde_json::Value)>>,
    ) -> (r: SendResult)
        ensures
            !self.spec_caps().mms ==> !r.success && r.status == MessageStatus::Failed
                && (r.error_message matches Some(m) && m@ == self.spec_name()
                + " does not support MMS"@),
            !self.spec_caps().mms ==> r.provider_message_id is None && r.error_code is None
                && r.raw_response is None && r.cost is None && r.segments == 0,
    {
        let msg = self.name().concat(" does not support MMS");
        SendResult {
            success: false,
            provider_message_id: None,
            status: MessageStatus::Failed,
            error_code: None,
            error_message: Some(msg),
            raw_response: None,
            cost: None,
            segments: 0,
        }
    }

    /// Checks a webhook's signature. An adapter without a signature scheme
    /// accepts every callback.
    fn validate_webhook(&self, _headers: &Vec<(String, String)>, _body: &[u8]) -> (r: bool)
        ensures
            !self.spec_caps().webhook_validator ==> r == true,
    {
        true
    }

    /// Turns an untyped callback body into a normalized delivery event.
    /// An adapter without a parser fails with a message naming it: a
    /// visible gap, not a silent no-op.
    fn parse_webhook(&self, _body: &[u8]) -> (r: Result<WebhookEvent, String>)
        ensures
            !self.spec_caps().webhook_parser ==> (r matches Err(m) && m@ == self.spec_name()
                + " must implement webhook parsing"@),
    {
        Err(self.name().concat(" must implement webhook parsing"))
    }

    /// An adapter without its own probe is always considered healthy.
    fn health_check(&self) -> (r: bool)
        ensures
            !self.spec_caps().health_check ==> r == true,
    {
        true
    }
}

/// An adapter with declared data and canned outcomes: the in-memory test
/// double that the registry's overwrite semantics exist for, and the
/// reference implementation of the interface's defaults.
#[derive(Clone)]
pub struct StubAdapter {
    pub provider_name: String,
    pub caps: AdapterCaps,
}

impl StubAdapter {
    /// A stub of the given name that declares no optional capability.
    pub fn plain(provider_name: String) -> (r: Self)
        ensures
            r.provider_name == provider_name,
            r.caps == (AdapterCaps {
                mms: false,
                whatsapp: false,
                rcs: false,
                webhook_validator: false,
                webhook_parser: false,
                health_check: false,
            }),
    {
        StubAdapter {
            provider_name,
            caps: AdapterCaps {
                mms: false,
                whatsapp: false,
                rcs: false,
                webhook_validator: false,
                webhook_parser: false,
                health_check: false,
            },
        }
    }
}

impl BaseProviderAdapter for StubAdapter {
    open spec fn spec_name(&self) -> Seq<char> {
        self.provider_name@
    }

    open spec fn spec_caps(&self) -> AdapterCaps {
        self.caps
    }

    fn name(&self) -> (r: String) {
        self.provider_name.clone()
    }

    fn capabilities(&self) -> (r: AdapterCaps) {
        self.caps
    }

    /// A canned successful attempt of one segment.
    fn send_sms(
        &self,
        _to: &str,
        _from: &str,
        _body: &str,
        _metadata: Option<Vec<(String, serde_json::Value)>>,
    ) -> (r: SendResult)
        ensures
            r.success,
            r.status == MessageStatus::Sent,
            (r.provider_message_id matches Some(id) && id@ == self.provider_name@),
            r.segments == 1,
    {
        SendResult {
            success: true,
            provider_message_id: Some(self.provider_name.clone()),
            status: MessageStatus::Sent,
            error_code: None,
            error_message: None,
            raw_response: None,
            cost: None,
            segments: 1,
        }
    }
}

/// Directory of adapters keyed by case-folded provider name. Registration
/// is idempotent per name (last writer wins) and a lookup never allocates
/// a second adapter.
#[verifier::reject_recursive_types(A)]
pub struct ProviderRegistry<A: BaseProviderAdapter> {
    adapters: StringHashMap<A>,
    names: Vec<String>,
}

impl<A: BaseProviderAdapter> View for ProviderRegistry<A> {
    type V = Map<Seq<char>, A>;

    closed spec fn view(&self) -> Map<Seq<char>, A> {
        self.adapters@
    }
}

impl<A: BaseProviderAdapter> ProviderRegistry<A> {
    /// The name list mirrors the key set without repetition.
    pub closed spec fn wf(&self) -> bool {
        &&& self.names@.map_values(|n: String| n@).to_set() == self.adapters@.dom()
        &&& self.names@.map_values(|n: String| n@).no_duplicates()
    }

    pub fn new() -> (r: Self)
        ensures
            r@ == Map::<Seq<char>, A>::empty(),
            r.wf(),
    {
        let r = ProviderRegistry { adapters: StringHashMap::new(), names: Vec::new() };
        proof {
            assert(r.names@.map_values(|n: String| n@).to_set() =~= r.adapters@.dom());
        }
        r
    }

    /// Stores the adapter under its case-folded name, replacing any
    /// previous adapter of that name.
    pub fn register(&mut self, adapter: A)
        requires
            old(self).wf(),
        ensures
            final(self)@ == old(self)@.insert(lower_of(adapter.spec_name()), adapter),
            final(self).wf(),
    {
        let name = adapter.name();
        let key = to_lowercase(name.as_str());
        if !self.adapters.contains_key(key.as_str()) {
            proof {
                assert(!self.names@.map_values(|n: String| n@).to_set().contains(key@));
            }
            let ghost old_names = self.names@;
            self.names.push(key.clone());
            proof {
                let f = |n: String| n@;
                assert(self.names@.map_values(f) =~= old_names.map_values(f).push(key@));
                lemma_view_set_push(old_names.map_values(f), key@);
            }
        }
        self.adapters.insert(key, adapter);
        proof {
            assert(self.names@.map_values(|n: String| n@).to_set() =~= self.adapters@.dom());
        }
    }

    /// Case-insensitive lookup; fails with the unknown-provider error when
    /// no adapter is registered under the folded name.
    pub fn get<'a>(&'a self, name: &str) -> (r: Result<&'a A, AdapterError>)
        ensures
            match r {
                Ok(a) => self@.contains_key(lower_of(name@)) && *a == self@[lower_of(name@)],
                Err(e) => !self@.contains_key(lower_of(name@)) && e->UnknownProvider_0@ == name@,
            },
    {
        let key = to_lowercase(name);
        match self.adapters.get(key.as_str()) {
            Some(a) => Ok(a),
            None => Err(AdapterError::UnknownProvider(name.to_owned())),
        }
    }

    /// The set of registered (folded) names, each exactly once.
    pub fn list(&self) -> (r: Vec<String>)
        requires
            self.wf(),
        ensures
            r@.map_values(|n: String| n@).to_set() == self@.dom(),
            r@.map_values(|n: String| n@).no_duplicates(),
    {
        let mut out: Vec<String> = Vec::new();
        let mut i: usize = 0;
        while i < self.names.len()
            invariant
                i <= self.names@.len(),
                out@.len() == i,
                forall|j: int| 0 <= j < i ==> out@[j] == self.names@[j],
            decreases self.names@.len() - i,
        {
            out.push(self.names[i].clone());
            i += 1;
        }
        proof {
            let f = |n: String| n@;
            assert(out@.map_values(f) =~= self.names@.map_values(f));
        }
        out
    }
}

/// Pushing a fresh element onto a duplicate-free sequence keeps it
/// duplicate-free, and grows its set of elements by exactly that element.
proof fn lemma_view_set_push(s: Seq<Seq<char>>, e: Seq<char>)
    requires
        s.no_duplicates(),
        !s.to_set().contains(e),
    ensures
        s.push(e).to_set() == s.to_set().insert(e),
        s.push(e).no_duplicates(),
{
    assert forall|x: Seq<char>| s.push(e).to_set().contains(x) <==> s.to_set().insert(
        e,
    ).contains(x) by {
        if s.push(e).contains(x) {
            let i = choose|i: int| 0 <= i < s.push(e).len() && s.push(e)[i] == x;
            if i < s.len() {
                assert(s[i] == x);
            }
        }
        if s.to_set().insert(e).contains(x) {
            if x == e {
                assert(s.push(e)[s.len() as int] == x);
            } else {
                let i = choose|i: int| 0 <= i < s.len() && s[i] == x;
                assert(s.push(e)[i] == x);
            }
        }
    }
    assert(s.push(e).to_set() =~= s.to_set().insert(e));
    assert forall|i: int, j: int|
        0 <= i < j < s.push(e).len() implies s.push(e)[i] != s.push(e)[j] by {
        if j < s.len() {
        } else {
            assert(s[i] == s.push(e)[i]);
            assert(s.to_set().contains(s[i]));
        }
    }
}

/// Law: after an adapter is registered, a lookup with any casing variant
/// of its name — any name with the same folded form — finds that very
/// adapter, the same one for every variant; and a name whose folded form
/// was never registered is not found.
pub proof fn lemma_get_case_insensitive<A: BaseProviderAdapter>(
    m: Map<Seq<char>, A>,
    adapter: A,
    variant1: Seq<char>,
    variant2: Seq<char>,
    absent: Seq<char>,
)
    ensures
        lower_of(variant1) == lower_of(adapter.spec_name()) ==> m.insert(
            lower_of(adapter.spec_name()),
            adapter,
        ).contains_key(lower_of(variant1)) && m.insert(
            lower_of(adapter.spec_name()),
            adapter,
        )[lower_of(variant1)] == adapter,
        lower_of(variant1) == lower_of(adapter.spec_name()) && lower_of(variant2) == lower_of(
            adapter.spec_name(),
        ) ==> m.insert(lower_of(adapter.spec_name()), adapter)[lower_of(variant1)] == m.insert(
            lower_of(adapter.spec_name()),
            adapter,
        )[lower_of(variant2)],
        lower_of(absent) != lower_of(adapter.spec_name()) && !m.contains_key(lower_of(absent))
            ==> !m.insert(lower_of(adapter.spec_name()), adapter).contains_key(lower_of(absent)),
{
}

/// Law: registering a second adapter under a name whose folded form
/// coincides replaces the first: every later lookup of that name returns
/// the newer adapter, so no two adapters are ever returned for one name.
pub proof fn lemma_register_overwrites<A: BaseProviderAdapter>(
    m: Map<Seq<char>, A>,
    first: A,
    second: A,
    name: Seq<char>,
)
    ensures
        lower_of(first.spec_name()) == lower_of(second.spec_name()) && lower_of(name) == lower_of(
            first.spec_name(),
        ) ==> m.insert(lower_of(first.spec_name()), first).insert(
            lower_of(second.spec_name()),
            second,
        )[lower_of(name)] == second,
{
}

} // verus!
