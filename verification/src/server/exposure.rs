//! What the requests about the public exposure decide, and what they are answered.

use crate::access::ScopeRequired;
use crate::json;
use crate::json::Fields;
use crate::json::Json;
use crate::json::Value;
use crate::public_exposure;
use crate::public_exposure::MutationIntent;
use crate::public_exposure::MutationStep;
use crate::public_exposure::Refusal;
use crate::public_exposure::RefusalKind;
use crate::public_exposure::RefusalReason;
use crate::public_exposure::TunnelOwnership;
use crate::text;
use crate::tunnels;
use crate::tunnels::adoption::Selection;
use crate::tunnels::Endpoint;
use crate::tunnels::Refused;
use crate::tunnels::report::AdvertisedEndpoint;
use crate::tunnels::report::Health;
use crate::tunnels::report::Snapshot;
use crate::tunnels::report::UnfinishedCreation;
use crate::tunnels::report::Verified;
use crate::web;
use crate::web::UrlParts;
use vstd::prelude::*;

verus! {

/// Text as the contracts see it.
pub type Text = Seq<char>;

// ---------------------------------------------------------------------------
// What is answered
// ---------------------------------------------------------------------------

/// The words of some steps.
pub open spec fn step_words(steps: Seq<MutationStep>) -> Value {
    Value::Array(Seq::new(steps.len(), |i: int| Value::Text(steps[i].word())))
}

/// The words of some steps.
fn steps_value(steps: &Vec<MutationStep>) -> (out: Json)
    ensures
        out@ == step_words(steps@),
{
    let mut words: Vec<Json> = Vec::new();
    let mut i: usize = 0;
    while i < steps.len()
        invariant
            i <= steps@.len(),
            words@.len() == i,
            forall|j: int| 0 <= j < i ==> (#[trigger] words@[j])@ == Value::Text(steps@[j].word()),
        decreases steps@.len() - i,
    {
        words.push(Json::text(steps[i].as_str()));
        i += 1;
    }
    proof {
        assert(json::items_view(words@) =~= step_words(steps@)->Array_0);
    }
    Json::array(words)
}

/// The status that a refusal is answered with.
pub open spec fn status_of(kind: RefusalKind) -> u16 {
    match kind {
        RefusalKind::Precondition => 409,
        RefusalKind::Rejected => 400,
    }
}

/// The tag that a refusal is answered with.
pub open spec fn tag_of(kind: RefusalKind) -> Text {
    match kind {
        RefusalKind::Precondition => "EnvironmentPublicExposurePreconditionError"@,
        RefusalKind::Rejected => "EnvironmentPublicExposureRejectedError"@,
    }
}

/// The body that a refusal is answered with.
pub open spec fn refusal_body(refusal: Refused, trace_id: Text) -> Value {
    Value::Object(
        seq![
            ("_tag"@, Value::Text(tag_of(refusal.kind))),
            ("code"@, Value::Text("public_exposure_refused"@)),
            ("completed"@, step_words(refusal.completed)),
            ("message"@, Value::Text(refusal.message)),
            ("reason"@, Value::Text(refusal.reason.word())),
            ("remaining"@, step_words(refusal.remaining)),
            ("traceId"@, Value::Text(trace_id)),
        ],
    )
}

impl Refusal {
    /// The status that it is answered with.
    pub fn status(&self) -> (out: u16)
        ensures
            out == status_of(self.kind),
    {
        match self.kind {
            RefusalKind::Precondition => 409,
            RefusalKind::Rejected => 400,
        }
    }

    /// The body that it is answered with.
    pub fn to_value(&self, trace_id: &str) -> (out: Json)
        ensures
            out@ == refusal_body(self@, trace_id@),
    {
        let tag = match self.kind {
            RefusalKind::Precondition => "EnvironmentPublicExposurePreconditionError",
            RefusalKind::Rejected => "EnvironmentPublicExposureRejectedError",
        };
        let fields: Fields = vec![
            json::entry("_tag", Json::text(tag)),
            json::entry("code", Json::text("public_exposure_refused")),
            json::entry("completed", steps_value(&self.completed)),
            json::entry("message", Json::text(&self.message)),
            json::entry("reason", Json::text(self.reason.as_str())),
            json::entry("remaining", steps_value(&self.remaining)),
            json::entry("traceId", Json::text(trace_id)),
        ];
        proof {
            assert(json::fields_view(fields@) =~= refusal_body(self@, trace_id@)->Object_0);
        }
        Json::object(fields)
    }
}

/// The body that a deletion which was not confirmed is answered with, under
/// [`unconfirmed_status`].
pub open spec fn unconfirmed_body(trace_id: Text) -> Value {
    Value::Object(
        seq![
            ("_tag"@, Value::Text("EnvironmentPublicExposurePreconditionError"@)),
            ("code"@, Value::Text("public_exposure_refused"@)),
            ("completed"@, Value::Array(Seq::empty())),
            (
                "message"@,
                Value::Text(
                    "Confirm the deletion again. A deletion is authorized by a confirmation laplus minted for the exact tunnel and DNS record it will remove, which is used once and expires shortly."@,
                ),
            ),
            ("reason"@, Value::Text("confirmation-required"@)),
            ("remaining"@, Value::Array(Seq::empty())),
            ("traceId"@, Value::Text(trace_id)),
        ],
    )
}

/// The status that a deletion which was not confirmed is answered with.
pub fn unconfirmed_status() -> (out: u16)
    ensures
        out == 409,
{
    409
}

/// The body that a deletion which was not confirmed is answered with, under
/// [`unconfirmed_status`].
pub fn unconfirmed_value(trace_id: &str) -> (out: Json)
    ensures
        out@ == unconfirmed_body(trace_id@),
{
    let completed: Vec<Json> = Vec::new();
    let remaining: Vec<Json> = Vec::new();
    proof {
        assert(json::items_view(completed@) =~= Seq::<Value>::empty());
        assert(json::items_view(remaining@) =~= Seq::<Value>::empty());
    }
    let fields: Fields = vec![
        json::entry("_tag", Json::text("EnvironmentPublicExposurePreconditionError")),
        json::entry("code", Json::text("public_exposure_refused")),
        json::entry("completed", Json::array(completed)),
        json::entry("message", Json::text(tunnels::unconfirmed_message())),
        json::entry("reason", Json::text(tunnels::unconfirmed_reason())),
        json::entry("remaining", Json::array(remaining)),
        json::entry("traceId", Json::text(trace_id)),
    ];
    proof {
        assert(json::fields_view(fields@) =~= unconfirmed_body(trace_id@)->Object_0);
    }
    Json::object(fields)
}

/// What a deletion that is offered would remove, and the confirmation it takes.
#[derive(Debug, PartialEq, Eq)]
pub struct DeletionOffer<S> {
    pub tunnel_id: S,
    /// What the account calls the tunnel, where it is the one that was chosen.
    pub tunnel_name: Option<S>,
    pub https_origin: S,
    pub dns_record_name: Option<S>,
    pub confirmation: S,
}

/// The answer that offers a deletion.
pub open spec fn offer_body(offer: DeletionOffer<Text>) -> Value {
    Value::Object(
        seq![
            ("confirmation"@, Value::Text(offer.confirmation)),
            ("dnsRecordName"@, json::or_null(offer.dns_record_name)),
            ("expiresInSeconds"@, Value::Whole(300)),
            ("httpsOrigin"@, Value::Text(offer.https_origin)),
            ("steps"@, step_words(tunnels::deletion_steps())),
            ("tunnelId"@, Value::Text(offer.tunnel_id)),
            ("tunnelName"@, json::or_null(offer.tunnel_name)),
            (
                "warning"@,
                Value::Text(
                    "Deleting removes the Cloudflare tunnel and the DNS record laplus created. Anything else routed to that tunnel stops working, and neither can be restored. laplus never revokes your Cloudflare account token and never touches your account certificate."@,
                ),
            ),
        ],
    )
}

impl View for DeletionOffer<String> {
    type V = DeletionOffer<Text>;

    open spec fn view(&self) -> DeletionOffer<Text> {
        DeletionOffer {
            tunnel_id: self.tunnel_id@,
            tunnel_name: text::maybe(self.tunnel_name),
            https_origin: self.https_origin@,
            dns_record_name: text::maybe(self.dns_record_name),
            confirmation: self.confirmation@,
        }
    }
}

/// What the account calls the tunnel that would be deleted: the name of the
/// selection, where that is the very tunnel.
pub open spec fn offered_name(selection: Option<(Selection<Text>, Text)>, tunnel_id: Text) -> Option<Text> {
    match selection {
        Some((selection, name)) if selection.tunnel_id == tunnel_id => Some(name),
        _ => None,
    }
}

/// The view of a selection and the name of its tunnel.
pub open spec fn named_selection(selection: Option<(Selection<String>, String)>) -> Option<(Selection<Text>, Text)> {
    match selection {
        Some((selection, name)) => Some((selection@, name@)),
        None => None,
    }
}

/// Offers to delete the tunnel of an endpoint, against this confirmation.
pub fn offer_deletion(
    tunnel_id: String,
    endpoint: Endpoint<String>,
    selection: Option<(Selection<String>, String)>,
    confirmation: String,
) -> (out: DeletionOffer<String>)
    ensures
        out@ == (DeletionOffer {
            tunnel_id: tunnel_id@,
            tunnel_name: offered_name(named_selection(selection), tunnel_id@),
            https_origin: endpoint@.https_origin,
            dns_record_name: endpoint@.dns_record_name,
            confirmation: confirmation@,
        }),
{
    let tunnel_name: Option<String> = match selection {
        Some((selection, name)) => if text::same(&selection.tunnel_id, &tunnel_id) {
            Some(name)
        } else {
            None
        },
        None => None,
    };
    DeletionOffer {
        tunnel_id,
        tunnel_name,
        https_origin: endpoint.https_origin,
        dns_record_name: endpoint.dns_record_name,
        confirmation,
    }
}

impl DeletionOffer<String> {
    /// The answer that offers the deletion.
    pub fn to_value(&self) -> (out: Json)
        ensures
            out@ == offer_body(self@),
    {
        let steps = tunnels::mutation_steps(MutationIntent::DeleteEverywhere);
        let fields: Fields = vec![
            json::entry("confirmation", Json::text(&self.confirmation)),
            json::entry("dnsRecordName", Json::maybe(&self.dns_record_name)),
            json::entry("expiresInSeconds", Json::Whole(tunnels::DELETION_CONFIRMATION_TTL / 1_000_000_000)),
            json::entry("httpsOrigin", Json::text(&self.https_origin)),
            json::entry("steps", steps_value(&steps)),
            json::entry("tunnelId", Json::text(&self.tunnel_id)),
            json::entry("tunnelName", Json::maybe(&self.tunnel_name)),
            json::entry(
                "warning",
                Json::text(
                    "Deleting removes the Cloudflare tunnel and the DNS record laplus created. Anything else routed to that tunnel stops working, and neither can be restored. laplus never revokes your Cloudflare account token and never touches your account certificate.",
                ),
            ),
        ];
        proof {
            assert(json::fields_view(fields@) =~= offer_body(self@)->Object_0);
        }
        Json::object(fields)
    }
}

/// The body that a request without a scope it needs is answered with, under
/// [`ScopeRequired::status`].
pub open spec fn scope_body(scope: Text, trace_id: Text) -> Value {
    Value::Object(
        seq![
            ("_tag"@, Value::Text("EnvironmentScopeRequiredError"@)),
            ("code"@, Value::Text("insufficient_scope"@)),
            ("requiredScope"@, Value::Text(scope)),
            ("traceId"@, Value::Text(trace_id)),
        ],
    )
}

impl ScopeRequired {
    /// The status that the request is answered with.
    pub fn status(&self) -> (out: u16)
        ensures
            out == 403,
    {
        403
    }

    /// The body that the request is answered with, under [`ScopeRequired::status`].
    pub fn to_value(&self, trace_id: &str) -> (out: Json)
        ensures
            out@ == scope_body(self.required_scope@, trace_id@),
    {
        let fields: Fields = vec![
            json::entry("_tag", Json::text("EnvironmentScopeRequiredError")),
            json::entry("code", Json::text("insufficient_scope")),
            json::entry("requiredScope", Json::text(&self.required_scope)),
            json::entry("traceId", Json::text(trace_id)),
        ];
        proof {
            assert(json::fields_view(fields@) =~= scope_body(self.required_scope@, trace_id@)->Object_0);
        }
        Json::object(fields)
    }
}

/// An endpoint as it is offered to clients.
pub open spec fn advertised(endpoint: AdvertisedEndpoint<Text>) -> Value {
    Value::Object(
        seq![
            (
                "compatibility"@,
                Value::Object(
                    seq![
                        ("desktopApp"@, Value::Text("compatible"@)),
                        ("hostedHttpsApp"@, Value::Text("compatible"@)),
                    ],
                ),
            ),
            ("description"@, Value::Text(endpoint.description)),
            ("httpBaseUrl"@, Value::Text(endpoint.http_base_url)),
            ("id"@, Value::Text(endpoint.id)),
            ("label"@, Value::Text("Cloudflare Tunnel"@)),
            (
                "provider"@,
                Value::Object(
                    seq![
                        ("id"@, Value::Text("cloudflare"@)),
                        ("isAddon"@, Value::Bool(true)),
                        ("kind"@, Value::Text("tunnel"@)),
                        ("label"@, Value::Text("Cloudflare Tunnel"@)),
                    ],
                ),
            ),
            ("reachability"@, Value::Text("public"@)),
            ("source"@, Value::Text(endpoint.source)),
            ("status"@, Value::Text("available"@)),
            ("wsBaseUrl"@, Value::Text(endpoint.ws_base_url)),
        ],
    )
}

/// What is known of the two protocols.
pub open spec fn health_value(health: Health<Text>) -> Value {
    Value::Object(
        seq![
            ("connector"@, Value::Text(health.connector)),
            ("https"@, Value::Text(health.https)),
            ("webSocket"@, Value::Text(health.web_socket)),
        ],
    )
}

/// The state of the public exposure, with what a cleanup reports.
pub open spec fn snapshot_value(snapshot: Snapshot<Text>, cleanup: Value) -> Value {
    Value::Object(
        seq![
            (
                "advertisedEndpoint"@,
                match snapshot.advertised_endpoint {
                    Some(endpoint) => advertised(endpoint),
                    None => Value::Null,
                },
            ),
            ("cleanup"@, cleanup),
            ("configured"@, Value::Bool(snapshot.configured)),
            ("deletableAtCloudflare"@, Value::Bool(snapshot.deletable_at_cloudflare)),
            ("failureKind"@, json::or_null(snapshot.failure_kind)),
            ("failureMessage"@, json::or_null(snapshot.failure_message)),
            ("health"@, health_value(snapshot.health)),
            ("httpsOrigin"@, json::or_null(snapshot.https_origin)),
            ("lastAttemptAt"@, json::or_null(snapshot.last_attempt_at)),
            ("lastVerifiedAt"@, json::or_null(snapshot.last_verified_at)),
            ("ownership"@, Value::Text(snapshot.ownership.word())),
            ("verificationState"@, Value::Text(snapshot.verification_state)),
            ("wssOrigin"@, json::or_null(snapshot.wss_origin)),
        ],
    )
}

impl AdvertisedEndpoint<String> {
    /// How it is offered.
    pub fn to_value(&self) -> (out: Json)
        ensures
            out@ == advertised(
                AdvertisedEndpoint {
                    id: self.id@,
                    http_base_url: self.http_base_url@,
                    ws_base_url: self.ws_base_url@,
                    source: self.source@,
                    description: self.description@,
                },
            ),
    {
        let ghost wanted = advertised(
            AdvertisedEndpoint {
                id: self.id@,
                http_base_url: self.http_base_url@,
                ws_base_url: self.ws_base_url@,
                source: self.source@,
                description: self.description@,
            },
        )->Object_0;
        let compatibility: Fields = vec![
            json::entry("desktopApp", Json::text("compatible")),
            json::entry("hostedHttpsApp", Json::text("compatible")),
        ];
        let provider: Fields = vec![
            json::entry("id", Json::text("cloudflare")),
            json::entry("isAddon", Json::Bool(true)),
            json::entry("kind", Json::text("tunnel")),
            json::entry("label", Json::text("Cloudflare Tunnel")),
        ];
        proof {
            assert(json::fields_view(compatibility@) =~= wanted[0].1->Object_0);
            assert(json::fields_view(provider@) =~= wanted[5].1->Object_0);
        }
        let fields: Fields = vec![
            json::entry("compatibility", Json::object(compatibility)),
            json::entry("description", Json::text(&self.description)),
            json::entry("httpBaseUrl", Json::text(&self.http_base_url)),
            json::entry("id", Json::text(&self.id)),
            json::entry("label", Json::text("Cloudflare Tunnel")),
            json::entry("provider", Json::object(provider)),
            json::entry("reachability", Json::text("public")),
            json::entry("source", Json::text(&self.source)),
            json::entry("status", Json::text("available")),
            json::entry("wsBaseUrl", Json::text(&self.ws_base_url)),
        ];
        proof {
            assert(json::fields_view(fields@) =~= wanted);
        }
        Json::object(fields)
    }
}

impl Health<String> {
    /// How it is written.
    pub fn to_value(&self) -> (out: Json)
        ensures
            out@ == health_value(
                Health { connector: self.connector@, https: self.https@, web_socket: self.web_socket@ },
            ),
    {
        let ghost wanted = health_value(
            Health { connector: self.connector@, https: self.https@, web_socket: self.web_socket@ },
        );
        let fields: Fields = vec![
            json::entry("connector", Json::text(&self.connector)),
            json::entry("https", Json::text(&self.https)),
            json::entry("webSocket", Json::text(&self.web_socket)),
        ];
        proof {
            assert(json::fields_view(fields@) =~= wanted->Object_0);
        }
        Json::object(fields)
    }
}

impl Snapshot<String> {
    /// How it is written, with what a cleanup reports.
    pub fn to_value(&self, cleanup: Json) -> (out: Json)
        ensures
            out@ == snapshot_value(self@, cleanup@),
    {
        let ghost wanted = snapshot_value(self@, cleanup@);
        let offered = match &self.advertised_endpoint {
            Some(endpoint) => endpoint.to_value(),
            None => Json::Null,
        };
        let fields: Fields = vec![
            json::entry("advertisedEndpoint", offered),
            json::entry("cleanup", cleanup),
            json::entry("configured", Json::Bool(self.configured)),
            json::entry("deletableAtCloudflare", Json::Bool(self.deletable_at_cloudflare)),
            json::entry("failureKind", Json::maybe(&self.failure_kind)),
            json::entry("failureMessage", Json::maybe(&self.failure_message)),
            json::entry("health", self.health.to_value()),
            json::entry("httpsOrigin", Json::maybe(&self.https_origin)),
            json::entry("lastAttemptAt", Json::maybe(&self.last_attempt_at)),
            json::entry("lastVerifiedAt", Json::maybe(&self.last_verified_at)),
            json::entry("ownership", Json::text(self.ownership.as_str())),
            json::entry("verificationState", Json::text(&self.verification_state)),
            json::entry("wssOrigin", Json::maybe(&self.wss_origin)),
        ];
        proof {
            assert(json::fields_view(fields@) =~= wanted->Object_0);
        }
        Json::object(fields)
    }
}

/// What the connector says of itself, with what is recorded of its endpoint. Who
/// owns the tunnel comes from the record and never from the connector: without a
/// record it is somebody else's, which authorizes nothing.
pub open spec fn managed_connector(
    connector: Value,
    ownership: Option<TunnelOwnership>,
    verified: Option<Verified<Text>>,
) -> Value {
    let owner = match ownership {
        Some(ownership) => ownership,
        None => TunnelOwnership::External,
    };
    match connector {
        Value::Object(fields) => {
            let fields = json::with_field(fields, "tunnelOwnership"@, Value::Text(owner.word()));
            let fields = json::with_field(
                fields,
                "deletableAtCloudflare"@,
                Value::Bool(owner == TunnelOwnership::LaplusCreated),
            );
            let fields = json::with_field(
                fields,
                "verificationState"@,
                Value::Text(
                    match verified {
                        Some(verified) => verified.state,
                        None => "unconfigured"@,
                    },
                ),
            );
            let fields = json::with_field(
                fields,
                "failureKind"@,
                json::or_null(
                    match verified {
                        Some(verified) => verified.failure_kind,
                        None => None,
                    },
                ),
            );
            let fields = json::with_field(
                fields,
                "publicFailureMessage"@,
                json::or_null(
                    match verified {
                        Some(verified) => verified.failure_message,
                        None => None,
                    },
                ),
            );
            Value::Object(
                json::with_field(
                    fields,
                    "lastVerifiedAt"@,
                    json::or_null(
                        match verified {
                            Some(verified) => verified.last_verified_at,
                            None => None,
                        },
                    ),
                ),
            )
        },
        other => other,
    }
}

/// What the connector says of itself, with what is recorded of its endpoint.
pub fn managed_connector_snapshot(
    connector: Json,
    recorded: &Option<(TunnelOwnership, Verified<String>)>,
) -> (out: Json)
    ensures
        out@ == managed_connector(
            connector@,
            match *recorded {
                Some(recorded) => Some(recorded.0),
                None => None,
            },
            match *recorded {
                Some(recorded) => Some(recorded.1@),
                None => None,
            },
        ),
{
    let ghost given = connector;
    proof {
        json::parts_are_viewed(given);
    }
    match connector {
        Json::Object(mut fields) => {
            let (owner, state, kind, message, at) = match recorded {
                Some((ownership, verified)) => (
                    *ownership,
                    Json::text(&verified.state),
                    Json::maybe(&verified.failure_kind),
                    Json::maybe(&verified.failure_message),
                    Json::maybe(&verified.last_verified_at),
                ),
                None => (
                    TunnelOwnership::External,
                    Json::text("unconfigured"),
                    Json::Null,
                    Json::Null,
                    Json::Null,
                ),
            };
            json::set(&mut fields, "tunnelOwnership", Json::text(owner.as_str()));
            json::set(&mut fields, "deletableAtCloudflare", Json::Bool(owner.deletable_at_cloudflare()));
            json::set(&mut fields, "verificationState", state);
            json::set(&mut fields, "failureKind", kind);
            json::set(&mut fields, "publicFailureMessage", message);
            json::set(&mut fields, "lastVerifiedAt", at);
            Json::object(fields)
        },
        other => other,
    }
}

/// What a creation that never finished got done, and what it has left.
pub open spec fn unfinished_value(creation: Option<UnfinishedCreation<Text, Seq<MutationStep>>>) -> Value {
    match creation {
        None => Value::Null,
        Some(creation) => Value::Object(
            seq![
                ("completed"@, step_words(creation.completed)),
                ("hostname"@, json::or_null(creation.hostname)),
                ("name"@, json::or_null(creation.name)),
                ("remaining"@, step_words(creation.remaining)),
                ("tunnelId"@, json::or_null(creation.tunnel_id)),
            ],
        ),
    }
}

/// The state of the account, with the creation it may have left half done.
pub open spec fn account_value(
    account: Value,
    creation: Option<UnfinishedCreation<Text, Seq<MutationStep>>>,
) -> Value {
    match account {
        Value::Object(fields) => Value::Object(
            json::with_field(fields, "unfinishedCreation"@, unfinished_value(creation)),
        ),
        other => other,
    }
}

impl UnfinishedCreation<String, Vec<MutationStep>> {
    /// How it is written.
    pub fn to_value(&self) -> (out: Json)
        ensures
            out@ == unfinished_value(Some(self@)),
    {
        let fields: Fields = vec![
            json::entry("completed", steps_value(&self.completed)),
            json::entry("hostname", Json::maybe(&self.hostname)),
            json::entry("name", Json::maybe(&self.name)),
            json::entry("remaining", steps_value(&self.remaining)),
            json::entry("tunnelId", Json::maybe(&self.tunnel_id)),
        ];
        proof {
            assert(json::fields_view(fields@) =~= unfinished_value(Some(self@))->Object_0);
        }
        Json::object(fields)
    }
}

/// The state of the account, with the creation it may have left half done.
pub fn cloudflare_account_snapshot(
    account: Json,
    creation: &Option<UnfinishedCreation<String, Vec<MutationStep>>>,
) -> (out: Json)
    ensures
        out@ == account_value(
            account@,
            match *creation {
                Some(creation) => Some(creation@),
                None => None,
            },
        ),
{
    let ghost given = account;
    proof {
        json::parts_are_viewed(given);
    }
    match account {
        Json::Object(mut fields) => {
            let value = match creation {
                Some(creation) => creation.to_value(),
                None => Json::Null,
            };
            json::set(&mut fields, "unfinishedCreation", value);
            Json::object(fields)
        },
        other => other,
    }
}

// ---------------------------------------------------------------------------
// Claiming an endpoint as somebody else's
// ---------------------------------------------------------------------------

/// What a request to register a hostname says.
#[derive(Debug, PartialEq, Eq)]
pub struct RegisterRequest {
    pub hostname: String,
}

/// Why a claim that an exposure is somebody else's is refused: laplus runs one, or
/// owns the tunnel that is recorded.
pub open spec fn claim_refused(configured: bool, recorded: Option<TunnelOwnership>) -> Option<Refused> {
    if configured {
        Some(tunnels::already_run())
    } else {
        conversion_refused(recorded)
    }
}

/// Why a tunnel that is recorded cannot be described as somebody else's.
pub open spec fn conversion_refused(recorded: Option<TunnelOwnership>) -> Option<Refused> {
    match recorded {
        Some(ownership) => if ownership == TunnelOwnership::External {
            None
        } else {
            Some(tunnels::already_owned(ownership))
        },
        None => None,
    }
}

/// The view of a refusal that may be missing.
pub open spec fn refusal_view(refusal: Option<Refusal>) -> Option<Refused> {
    match refusal {
        Some(refusal) => Some(refusal@),
        None => None,
    }
}

/// The view of an origin or of why there is none.
pub open spec fn origin_view(origin: Result<String, Refusal>) -> Result<Text, Refused> {
    match origin {
        Ok(origin) => Ok(origin@),
        Err(refusal) => Err(refusal@),
    }
}

/// Why a claim that an exposure is somebody else's is refused. `configured` is
/// whether laplus runs a connector.
pub fn claim(configured: bool, recorded: Option<TunnelOwnership>) -> (out: Option<Refusal>)
    ensures
        refusal_view(out) == claim_refused(configured, recorded),
{
    match tunnels::managed_connector_already_owns_exposure(configured) {
        Some(refusal) => Some(refusal),
        None => tunnels::ownership_is_not_the_clients_to_change(recorded),
    }
}

/// The origin to register, or why none is. `url` is the hostname that was typed,
/// taken apart.
pub open spec fn registration(
    configured: bool,
    recorded: Option<TunnelOwnership>,
    url: Option<UrlParts<Text>>,
) -> Result<Text, Refused> {
    match claim_refused(configured, recorded) {
        Some(refusal) => Err(refusal),
        None => match public_exposure::origin_of(url) {
            Ok(origin) => Ok(origin),
            Err(why) => Err(Refused::rejected(RefusalReason::HostnameInvalid, why)),
        },
    }
}

/// The origin to register for a request, or why none is.
pub fn register_external_tunnel(
    configured: bool,
    recorded: Option<TunnelOwnership>,
    request: &RegisterRequest,
) -> (out: Result<String, Refusal>)
    ensures
        origin_view(out) == registration(
            configured,
            recorded,
            web::parsed_url(public_exposure::hostname_url(request.hostname@)),
        ),
{
    if let Some(refusal) = claim(configured, recorded) {
        return Err(refusal);
    }
    registered(public_exposure::normalize_hostname(&request.hostname))
}

/// The origin to register for a hostname that has been taken apart, or why none
/// is.
pub fn register_url(
    configured: bool,
    recorded: Option<TunnelOwnership>,
    url: Option<UrlParts<String>>,
) -> (out: Result<String, Refusal>)
    ensures
        origin_view(out) == registration(configured, recorded, web::parts_view(url)),
{
    if let Some(refusal) = claim(configured, recorded) {
        return Err(refusal);
    }
    registered(public_exposure::normalize_url(url))
}

/// A hostname that cannot be registered is refused with the sentence that says
/// why.
fn registered(origin: Result<String, &'static str>) -> (out: Result<String, Refusal>)
    ensures
        origin_view(out) == match public_exposure::outcome_view(origin) {
            Ok(origin) => Ok::<Text, Refused>(origin),
            Err(why) => Err(Refused::rejected(RefusalReason::HostnameInvalid, why)),
        },
{
    match origin {
        Ok(origin) => Ok(origin),
        Err(why) => {
            let refusal = Refusal::rejected(RefusalReason::HostnameInvalid, why);
            proof {
                assert(refusal@ =~= Refused::rejected(RefusalReason::HostnameInvalid, why@));
            }
            Err(refusal)
        },
    }
}

/// What a tunnel that was chosen is good for.
#[derive(Debug, Clone, Copy, PartialEq, Eq, Structural)]
pub enum Classification {
    /// It is active, so that somebody else operates it.
    External,
    /// It is not, and can be dedicated to this environment.
    Adoptable,
}

/// What follows from a request.
#[derive(Debug, PartialEq, Eq)]
pub enum Outcome<S, R> {
    Refused(R),
    /// Record this origin as somebody else's, then verify it and answer with the
    /// state; answer 500 where it cannot be recorded.
    Record(S),
    /// Verify the endpoint, and answer with the state at once.
    Verify,
    /// Answer with the state.
    Report,
}

impl View for Outcome<String, Refusal> {
    type V = Outcome<Text, Refused>;

    open spec fn view(&self) -> Outcome<Text, Refused> {
        match self {
            Outcome::Refused(refusal) => Outcome::Refused(refusal@),
            Outcome::Record(origin) => Outcome::Record(origin@),
            Outcome::Verify => Outcome::Verify,
            Outcome::Report => Outcome::Report,
        }
    }
}

/// What follows from choosing a tunnel: an active one is recorded as somebody
/// else's, and any other is only remembered.
pub fn select_cloudflare_tunnel(selected: Result<(Classification, String), Refusal>) -> (out: Outcome<String, Refusal>)
    ensures
        out@ == match selected {
            Err(refusal) => Outcome::<Text, Refused>::Refused(refusal@),
            Ok((Classification::External, origin)) => Outcome::Record(origin@),
            Ok((Classification::Adoptable, _)) => Outcome::Report,
        },
{
    match selected {
        Err(refusal) => Outcome::Refused(refusal),
        Ok((Classification::External, origin)) => Outcome::Record(origin),
        Ok((Classification::Adoptable, _)) => Outcome::Report,
    }
}

/// Why a connector may not be configured with a token: one that runs with a token
/// is somebody else's by definition.
pub fn may_configure(recorded: Option<TunnelOwnership>) -> (out: Option<Refusal>)
    ensures
        refusal_view(out) == conversion_refused(recorded),
{
    tunnels::ownership_is_not_the_clients_to_change(recorded)
}

/// What follows from configuring a connector with a token, which is taken out of
/// every sentence of a refusal. What was configured is the origin that the
/// connector then serves, where it names one.
pub fn configure_cloudflare_connector(configured: Result<Option<String>, Refusal>, token: &str) -> (out: Outcome<
    String,
    Refusal,
>)
    ensures
        out@ == match configured {
            Err(refusal) => Outcome::<Text, Refused>::Refused(refusal@.redacting(token@)),
            Ok(Some(origin)) => Outcome::Record(origin@),
            Ok(None) => Outcome::Verify,
        },
{
    match configured {
        Err(refusal) => {
            let ghost given = refusal@;
            let told = refusal.redacting(token);
            proof {
                assert(told@ =~= given.redacting(token@));
            }
            Outcome::Refused(told)
        },
        Ok(Some(origin)) => Outcome::Record(origin),
        Ok(None) => Outcome::Verify,
    }
}

/// What a connector is told to do.
#[derive(Debug, Clone, Copy, PartialEq, Eq, Structural)]
pub enum Wanted {
    Start,
    Stop,
    Retry,
}

impl Wanted {
    /// Whether the connector is to run, and whether its restarts are counted anew.
    pub fn desired(self) -> (out: (bool, bool))
        ensures
            out == match self {
                Wanted::Start => (true, false),
                Wanted::Stop => (false, false),
                Wanted::Retry => (true, true),
            },
    {
        match self {
            Wanted::Start => (true, false),
            Wanted::Stop => (false, false),
            Wanted::Retry => (true, true),
        }
    }
}

/// What follows from telling the connector what to do: its endpoint is verified
/// where it is to run.
pub fn mutate_cloudflare_connector(wanted: Wanted, told: Result<(), Refusal>) -> (out: Outcome<String, Refusal>)
    ensures
        out@ == match told {
            Err(refusal) => Outcome::<Text, Refused>::Refused(refusal@),
            Ok(_) => if wanted == Wanted::Stop {
                Outcome::<Text, Refused>::Report
            } else {
                Outcome::Verify
            },
        },
{
    match told {
        Err(refusal) => Outcome::Refused(refusal),
        Ok(_) => {
            if wanted.desired().0 {
                Outcome::Verify
            } else {
                Outcome::Report
            }
        },
    }
}

/// Why an installation did not happen.
#[derive(Debug, PartialEq, Eq)]
pub enum InstallRefusal<S> {
    /// The feed has moved on from the release that was approved.
    Conflict(S),
    Rejected(S),
}

/// What an installation that did not happen is answered: a feed that has moved on
/// is approved again, and names the release.
pub fn install_refused(refusal: &InstallRefusal<String>) -> (out: Refusal)
    ensures
        out@ == match refusal {
            InstallRefusal::Conflict(message) => Refused::precondition(RefusalReason::ReleaseMoved, message@),
            InstallRefusal::Rejected(message) => Refused::rejected(RefusalReason::CommandFailed, message@),
        },
{
    match refusal {
        InstallRefusal::Conflict(message) => {
            let out = Refusal::precondition(RefusalReason::ReleaseMoved, message);
            proof {
                assert(out@ =~= Refused::precondition(RefusalReason::ReleaseMoved, message@));
            }
            out
        },
        InstallRefusal::Rejected(message) => {
            let out = Refusal::rejected(RefusalReason::CommandFailed, message);
            proof {
                assert(out@ =~= Refused::rejected(RefusalReason::CommandFailed, message@));
            }
            out
        },
    }
}

// ---------------------------------------------------------------------------
// Laws
// ---------------------------------------------------------------------------

/// No claim makes a tunnel that laplus owns somebody else's: an origin is
/// registered only where no connector is run and nothing but an external endpoint
/// is recorded.
pub proof fn ownership_is_never_laundered(
    configured: bool,
    recorded: Option<TunnelOwnership>,
    url: Option<UrlParts<Text>>,
)
    requires
        registration(configured, recorded, url) is Ok,
    ensures
        !configured,
        recorded is None || recorded == Some(TunnelOwnership::External),
{
}

/// A refusal of a claim does not depend on the hostname, so that it tells nothing
/// about one; and it is told in full before the hostname is looked at.
pub proof fn a_claim_is_refused_before_its_hostname(
    configured: bool,
    recorded: Option<TunnelOwnership>,
    url: Option<UrlParts<Text>>,
    other: Option<UrlParts<Text>>,
)
    requires
        claim_refused(configured, recorded) is Some,
    ensures
        registration(configured, recorded, url) == registration(configured, recorded, other),
        registration(configured, recorded, url) is Err,
{
}

/// What is deletable at Cloudflare is what is recorded as made by laplus, whatever
/// the connector says of itself; a connector without a record authorizes nothing.
pub proof fn only_the_record_authorizes_a_deletion(
    fields: Seq<(Text, Value)>,
    ownership: Option<TunnelOwnership>,
    verified: Option<Verified<Text>>,
)
    requires
        json::field_is_in_order(fields, "tunnelOwnership"@),
        json::field_is_in_order(fields, "deletableAtCloudflare"@),
        json::field_is_in_order(fields, "verificationState"@),
        json::field_is_in_order(fields, "failureKind"@),
        json::field_is_in_order(fields, "publicFailureMessage"@),
        json::field_is_in_order(fields, "lastVerifiedAt"@),
    ensures
        json::field(
            managed_connector(Value::Object(fields), ownership, verified)->Object_0,
            "deletableAtCloudflare"@,
        ) == Some(Value::Bool(ownership == Some(TunnelOwnership::LaplusCreated))),
{
    reveal_strlit("tunnelOwnership");
    reveal_strlit("deletableAtCloudflare");
    reveal_strlit("verificationState");
    reveal_strlit("failureKind");
    reveal_strlit("publicFailureMessage");
    reveal_strlit("lastVerifiedAt");
    let names = seq![
        "tunnelOwnership"@,
        "deletableAtCloudflare"@,
        "verificationState"@,
        "failureKind"@,
        "publicFailureMessage"@,
        "lastVerifiedAt"@,
    ];
    let owner = match ownership {
        Some(ownership) => ownership,
        None => TunnelOwnership::External,
    };
    let asked = names[1];
    let values = seq![
        Value::Text(owner.word()),
        Value::Bool(owner == TunnelOwnership::LaplusCreated),
        Value::Text(
            match verified {
                Some(verified) => verified.state,
                None => "unconfigured"@,
            },
        ),
        json::or_null(
            match verified {
                Some(verified) => verified.failure_kind,
                None => None,
            },
        ),
        json::or_null(
            match verified {
                Some(verified) => verified.failure_message,
                None => None,
            },
        ),
    ];
    let first = json::with_field(fields, names[0], values[0]);
    let second = json::with_field(first, names[1], values[1]);
    let third = json::with_field(second, names[2], values[2]);
    let fourth = json::with_field(third, names[3], values[3]);
    let fifth = json::with_field(fourth, names[4], values[4]);
    assert forall|i: int| 0 <= i < 6 implies json::field_is_in_order(fields, #[trigger] names[i]) by {}
    assert forall|i: int| 0 <= i < 6 implies json::field_is_in_order(first, #[trigger] names[i]) by {
        json::setting_keeps_order(fields, names[0], values[0], names[i]);
    }
    assert forall|i: int| 0 <= i < 6 implies json::field_is_in_order(second, #[trigger] names[i]) by {
        json::setting_keeps_order(first, names[1], values[1], names[i]);
    }
    assert forall|i: int| 0 <= i < 6 implies json::field_is_in_order(third, #[trigger] names[i]) by {
        json::setting_keeps_order(second, names[2], values[2], names[i]);
    }
    assert forall|i: int| 0 <= i < 6 implies json::field_is_in_order(fourth, #[trigger] names[i]) by {
        json::setting_keeps_order(third, names[3], values[3], names[i]);
    }
    assert forall|i: int| 0 <= i < 6 implies json::field_is_in_order(fifth, #[trigger] names[i]) by {
        json::setting_keeps_order(fourth, names[4], values[4], names[i]);
    }
    let last = json::or_null(
        match verified {
            Some(verified) => verified.last_verified_at,
            None => None,
        },
    );
    json::setting_a_field(first, names[1], values[1], asked);
    json::setting_a_field(second, names[2], values[2], asked);
    json::setting_a_field(third, names[3], values[3], asked);
    json::setting_a_field(fourth, names[4], values[4], asked);
    json::setting_a_field(fifth, names[5], last, asked);
    assert(names[0].len() != asked.len() && names[2].len() != asked.len() && names[3].len() != asked.len());
    assert(names[4].len() != asked.len() && names[5].len() != asked.len());
    let shown = managed_connector(Value::Object(fields), ownership, verified);
    assert(shown == Value::Object(json::with_field(fifth, names[5], last)));
}

} // verus!
