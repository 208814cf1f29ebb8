use vstd::prelude::*;

verus! {

/// Name of the capability group that the volume driver endpoints form.
pub const IMPLEMENTS_VOLUME: &'static str = "VolumeDriver";

/// Status code of a reply to a call that the backend failed.
pub const BACKEND_FAILURE_STATUS: u16 = 500;

/// Status code of a reply to a call whose body could not be decoded.
pub const MALFORMED_REQUEST_STATUS: u16 = 400;

/// `{Name, Options}`: create a volume with backend-defined options.
#[derive(Debug, Clone)]
pub struct CreateRequest<Opts> {
    pub name: String,
    pub options: Opts,
}

/// `{Name}`: remove a volume.
#[derive(Debug, Clone)]
pub struct RemoveRequest {
    pub name: String,
}

/// `{Name, ID}`: mount a volume for the mount session `id`.
#[derive(Debug, Clone)]
pub struct MountRequest {
    pub name: String,
    pub id: String,
}

/// `{Mountpoint}`: where a mounted volume is found.
#[derive(Debug, Clone)]
pub struct MountResponse {
    pub mountpoint: String,
}

/// `{Name, ID}`: release the mount session `id` of a volume.
#[derive(Debug, Clone)]
pub struct UnmountRequest {
    pub name: String,
    pub id: String,
}

/// `{Name}`: ask where a volume is mounted.
#[derive(Debug, Clone)]
pub struct PathRequest {
    pub name: String,
}

/// `{Mountpoint}`: where a volume is mounted, empty when it is not.
#[derive(Debug, Clone)]
pub struct PathResponse {
    pub mountpoint: String,
}

/// `{Name}`: inspect a volume.
#[derive(Debug, Clone)]
pub struct GetRequest {
    pub name: String,
}

/// `{Volume}`: the inspected volume, or none when no volume has that name.
#[derive(Debug, Clone)]
pub struct GetResponse<Status> {
    pub volume: Option<Volume<Status>>,
}

/// `{Capabilities}`: what the backend declares about its volumes.
#[derive(Debug, Clone)]
pub struct CapabilitiesResponse {
    pub capabilities: Capabilities,
}

/// `{Scope}`: `"local"` for volumes usable on this host only, `"global"` for
/// volumes usable across the cluster.
#[derive(Debug, Clone)]
pub struct Capabilities {
    pub scope: String,
}

/// `{Volumes}`: every volume that the backend knows.
#[derive(Debug, Clone)]
pub struct ListResponse<Status> {
    pub volumes: Vec<Volume<Status>>,
}

/// `{Name, Mountpoint, CreatedAt, Status}`: one volume, with a status payload
/// that the backend defines and the adapter passes on untouched.
#[derive(Debug, Clone)]
pub struct Volume<Status> {
    pub name: String,
    pub mountpoint: String,
    pub created_at: String,
    pub status: Status,
}

/// `{}`: the success body of a call that yields no value.
#[derive(Debug, Clone)]
pub struct EmptyResponse {}

pub open spec fn is_known_scope(scope: Seq<char>) -> bool {
    scope == "local"@ || scope == "global"@
}

impl Capabilities {
    /// Volumes usable on this host only.
    pub fn local() -> (c: Capabilities)
        ensures
            c.scope@ == "local"@,
            is_known_scope(c.scope@),
    {
        Capabilities { scope: String::from_str("local") }
    }

    /// Volumes usable across the cluster.
    pub fn global() -> (c: Capabilities)
        ensures
            c.scope@ == "global"@,
            is_known_scope(c.scope@),
    {
        Capabilities { scope: String::from_str("global") }
    }
}

/// A JSON string literal that encodes `s`.
pub uninterp spec fn json_string_of(s: Seq<char>) -> Seq<char>;

/// Relies on serde_json::to_string on a `str`: it writes the JSON string
/// literal of its argument, and it cannot fail for a `str`.
#[verifier::external_body]
fn json_string(s: &str) -> (r: String)
    ensures
        r@ == json_string_of(s@),
{
    match serde_json::to_string(s) {
        Ok(text) => text,
        Err(_) => String::new(),
    }
}

/// The error envelope `{"Err": message}` as JSON text.
pub open spec fn envelope(message: Seq<char>) -> Seq<char> {
    "{\"Err\":"@ + json_string_of(message) + "}"@
}

/// The message that reports a backend failure with the text `detail`.
pub open spec fn failure_message(detail: Seq<char>) -> Seq<char> {
    "Something went wrong: "@ + detail
}

/// The message that reports a request body that could not be decoded.
pub open spec fn malformed_message(detail: Seq<char>) -> Seq<char> {
    "Malformed request: "@ + detail
}

/// Renders the error envelope around `message`.
fn envelope_body(message: &str) -> (r: String)
    ensures
        r@ == envelope(message@),
{
    let quoted = json_string(message);
    String::from_str("{\"Err\":").concat(quoted.as_str()).concat("}")
}

/// A failed call as the host sees it: a status code and an error envelope.
#[derive(Debug, Clone)]
pub struct ErrorResponse {
    pub status: u16,
    pub body: String,
}

/// The reply to a request whose body could not be decoded into the
/// operation's request; the backend is not called for it.
pub fn malformed_request(detail: &str) -> (r: ErrorResponse)
    ensures
        r.status == MALFORMED_REQUEST_STATUS,
        r.body@ == envelope(malformed_message(detail@)),
{
    let message = String::from_str("Malformed request: ").concat(detail);
    ErrorResponse { status: MALFORMED_REQUEST_STATUS, body: envelope_body(message.as_str()) }
}

/// A failure reported by the backend, with a human-readable message. Every
/// kind of failure (conflict, invalid input, busy, internal) is one of these.
#[derive(Debug, Clone)]
pub struct DriverError(String);

impl View for DriverError {
    type V = Seq<char>;

    closed spec fn view(&self) -> Seq<char> {
        self.0@
    }
}

impl DriverError {
    pub fn new(message: String) -> (e: DriverError)
        ensures
            e@ == message@,
    {
        DriverError(message)
    }

    pub fn message(&self) -> (r: &str)
        ensures
            r@ == self@,
    {
        self.0.as_str()
    }

    /// The error envelope that reports this failure to the host.
    pub fn into_response(self) -> (r: ErrorResponse)
        ensures
            r.status == BACKEND_FAILURE_STATUS,
            r.body@ == envelope(failure_message(self@)),
    {
        let message = String::from_str("Something went wrong: ").concat(self.0.as_str());
        ErrorResponse { status: BACKEND_FAILURE_STATUS, body: envelope_body(message.as_str()) }
    }
}

/// The volume-driver operations, each bound to one fixed endpoint path.
#[derive(Debug, Clone, Copy, PartialEq, Eq, Structural)]
pub enum Endpoint {
    Create,
    Get,
    List,
    Remove,
    Path,
    Mount,
    Unmount,
    Capabilities,
}

pub open spec fn endpoint_path(e: Endpoint) -> Seq<char> {
    match e {
        Endpoint::Create => "/VolumeDriver.Create"@,
        Endpoint::Get => "/VolumeDriver.Get"@,
        Endpoint::List => "/VolumeDriver.List"@,
        Endpoint::Remove => "/VolumeDriver.Remove"@,
        Endpoint::Path => "/VolumeDriver.Path"@,
        Endpoint::Mount => "/VolumeDriver.Mount"@,
        Endpoint::Unmount => "/VolumeDriver.Unmount"@,
        Endpoint::Capabilities => "/VolumeDriver.Capabilities"@,
    }
}

impl Endpoint {
    /// Every endpoint, in the order of the protocol's table.
    pub fn all() -> (r: Vec<Endpoint>)
        ensures
            r@.len() == 8,
            forall|e: Endpoint| #[trigger] r@.contains(e),
    {
        let r = vec![
            Endpoint::Create,
            Endpoint::Get,
            Endpoint::List,
            Endpoint::Remove,
            Endpoint::Path,
            Endpoint::Mount,
            Endpoint::Unmount,
            Endpoint::Capabilities,
        ];
        assert forall|e: Endpoint| #[trigger] r@.contains(e) by {
            match e {
                Endpoint::Create => assert(r@[0] == e),
                Endpoint::Get => assert(r@[1] == e),
                Endpoint::List => assert(r@[2] == e),
                Endpoint::Remove => assert(r@[3] == e),
                Endpoint::Path => assert(r@[4] == e),
                Endpoint::Mount => assert(r@[5] == e),
                Endpoint::Unmount => assert(r@[6] == e),
                Endpoint::Capabilities => assert(r@[7] == e),
            }
        }
        r
    }

    /// The exact, case-sensitive path on which this operation is served.
    pub fn path(self) -> (r: &'static str)
        ensures
            r@ == endpoint_path(self),
    {
        match self {
            Endpoint::Create => "/VolumeDriver.Create",
            Endpoint::Get => "/VolumeDriver.Get",
            Endpoint::List => "/VolumeDriver.List",
            Endpoint::Remove => "/VolumeDriver.Remove",
            Endpoint::Path => "/VolumeDriver.Path",
            Endpoint::Mount => "/VolumeDriver.Mount",
            Endpoint::Unmount => "/VolumeDriver.Unmount",
            Endpoint::Capabilities => "/VolumeDriver.Capabilities",
        }
    }
}

/// What the backend answered to one call, tagged by the operation.
#[derive(Debug)]
pub enum Outcome<Status> {
    Created(Result<(), DriverError>),
    Got(Result<GetResponse<Status>, DriverError>),
    Listed(Result<ListResponse<Status>, DriverError>),
    Removed(Result<(), DriverError>),
    Located(Result<PathResponse, DriverError>),
    Mounted(Result<MountResponse, DriverError>),
    Unmounted(Result<(), DriverError>),
    Declared(CapabilitiesResponse),
}

/// What the host receives for one call: the success body of the operation,
/// or the error envelope.
#[derive(Debug, Clone)]
pub enum Response<Status> {
    Empty(EmptyResponse),
    Get(GetResponse<Status>),
    List(ListResponse<Status>),
    Path(PathResponse),
    Mount(MountResponse),
    Capabilities(CapabilitiesResponse),
    Error(ErrorResponse),
}

impl<Status> Outcome<Status> {
    /// The operation whose answer this is.
    pub open spec fn endpoint(self) -> Endpoint {
        match self {
            Outcome::Created(_) => Endpoint::Create,
            Outcome::Got(_) => Endpoint::Get,
            Outcome::Listed(_) => Endpoint::List,
            Outcome::Removed(_) => Endpoint::Remove,
            Outcome::Located(_) => Endpoint::Path,
            Outcome::Mounted(_) => Endpoint::Mount,
            Outcome::Unmounted(_) => Endpoint::Unmount,
            Outcome::Declared(_) => Endpoint::Capabilities,
        }
    }

    /// The backend's failure, when the call failed.
    pub open spec fn failure(self) -> Option<DriverError> {
        match self {
            Outcome::Created(Err(e)) => Some(e),
            Outcome::Got(Err(e)) => Some(e),
            Outcome::Listed(Err(e)) => Some(e),
            Outcome::Removed(Err(e)) => Some(e),
            Outcome::Located(Err(e)) => Some(e),
            Outcome::Mounted(Err(e)) => Some(e),
            Outcome::Unmounted(Err(e)) => Some(e),
            _ => None,
        }
    }
}

/// Whether an operation changes the backend's state.
pub open spec fn is_mutating(e: Endpoint) -> bool {
    e == Endpoint::Create || e == Endpoint::Remove || e == Endpoint::Mount || e == Endpoint::Unmount
}

/// `r` is the error envelope that reports the backend failure `e`.
pub open spec fn reports_failure<Status>(r: Response<Status>, e: DriverError) -> bool {
    &&& r is Error
    &&& r->Error_0.status == BACKEND_FAILURE_STATUS
    &&& r->Error_0.body@ == envelope(failure_message(e@))
}

/// `r` is what the host receives when the backend answered `o`: a failure
/// becomes the error envelope, a success becomes the operation's body, and
/// the calls that yield no value answer with the empty object.
pub open spec fn is_reply_to<Status>(r: Response<Status>, o: Outcome<Status>) -> bool {
    match o.failure() {
        Some(e) => reports_failure(r, e),
        None => match o {
            Outcome::Got(Ok(g)) => r == Response::Get(g),
            Outcome::Listed(Ok(l)) => r == Response::<Status>::List(l),
            Outcome::Located(Ok(p)) => r == Response::<Status>::Path(p),
            Outcome::Mounted(Ok(m)) => r == Response::<Status>::Mount(m),
            Outcome::Declared(c) => r == Response::<Status>::Capabilities(c),
            _ => r == Response::<Status>::Empty(EmptyResponse {}),
        },
    }
}

/// Turns the backend's answer to one call into the reply to the host.
pub fn reply<Status>(outcome: Outcome<Status>) -> (r: Response<Status>)
    ensures
        is_reply_to(r, outcome),
{
    match outcome {
        Outcome::Created(Ok(())) => Response::Empty(EmptyResponse {}),
        Outcome::Removed(Ok(())) => Response::Empty(EmptyResponse {}),
        Outcome::Unmounted(Ok(())) => Response::Empty(EmptyResponse {}),
        Outcome::Got(Ok(g)) => Response::Get(g),
        Outcome::Listed(Ok(l)) => Response::List(l),
        Outcome::Located(Ok(p)) => Response::Path(p),
        Outcome::Mounted(Ok(m)) => Response::Mount(m),
        Outcome::Declared(c) => Response::Capabilities(c),
        Outcome::Created(Err(e)) => Response::Error(e.into_response()),
        Outcome::Got(Err(e)) => Response::Error(e.into_response()),
        Outcome::Listed(Err(e)) => Response::Error(e.into_response()),
        Outcome::Removed(Err(e)) => Response::Error(e.into_response()),
        Outcome::Located(Err(e)) => Response::Error(e.into_response()),
        Outcome::Mounted(Err(e)) => Response::Error(e.into_response()),
        Outcome::Unmounted(Err(e)) => Response::Error(e.into_response()),
    }
}

/// A backend failure of a call that changes state (create, remove, mount,
/// unmount) is answered with exactly the error envelope, and the message in
/// it is never empty.
pub proof fn lemma_failed_mutation_is_enveloped<Status>(o: Outcome<Status>, r: Response<Status>)
    requires
        is_mutating(o.endpoint()),
        o.failure() is Some,
        is_reply_to(r, o),
    ensures
        r is Error,
        r->Error_0.body@ == envelope(failure_message(o.failure()->0@)),
        failure_message(o.failure()->0@).len() > 0,
{
    reveal_strlit("Something went wrong: ");
}

/// Inspecting a volume that the backend does not have is answered with
/// `{"Volume": null}`, never with the error envelope.
pub proof fn lemma_missing_volume_is_not_an_error<Status>(r: Response<Status>)
    requires
        is_reply_to(r, Outcome::Got(Ok(GetResponse { volume: None }))),
    ensures
        r !is Error,
        r == Response::Get(GetResponse::<Status> { volume: None }),
{
}

/// The capabilities call never fails, and its scope is `"local"` or
/// `"global"` whenever the backend declared one of the two.
pub proof fn lemma_capabilities_never_fail<Status>(c: CapabilitiesResponse, r: Response<Status>)
    requires
        is_known_scope(c.capabilities.scope@),
        is_reply_to(r, Outcome::Declared(c)),
    ensures
        r !is Error,
        r is Capabilities,
        r->Capabilities_0.capabilities.scope@ == "local"@ || r->Capabilities_0.capabilities.scope@ == "global"@,
{
}

} // verus!
