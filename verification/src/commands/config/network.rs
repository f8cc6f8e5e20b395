//! Network selection and the funding protocol.
//!
//! A command names its network by explicit endpoint and passphrase or by the
//! name of a saved network; `Args::get` decides which applies. Funding an
//! address is a short exchange with the network's funding helper: the caller
//! does the two requests, and the functions here decide what is asked, over
//! which transport, and what the answer means.

use vstd::prelude::*;
use vstd::string::StringExecFns;

pub mod add;
pub mod ls;
pub mod rm;

use crate::commands::config::locator;
use crate::commands::config::locator::ConfigLocator;
use crate::json::{document_result, json_document, member_of, parse_json, Document, DocumentView};
use crate::keys::{strkey_public_text, PublicKey};
use crate::text::{contains, str_contains, str_eq, view_of};
use crate::uri::{parsed_uri, Uri, UriView};

verus! {

/// Why a network could not be selected or an address could not be funded.
#[derive(Clone, PartialEq, Eq, Debug)]
pub enum Error {
    /// The store of saved networks failed; `NotFound` where the named network
    /// is not saved.
    Config(locator::Error),
    /// Neither a network name nor both of endpoint and passphrase were given.
    NetworkRequired,
    /// The text is not a URI that funding can use. Carries the text.
    InvalidUrl(String),
    /// The funding helper's answer is not JSON. Carries the URI that was
    /// asked, the answer as it came, and the parser's message.
    MalformedResponse { uri: String, body: Vec<u8>, reason: String },
    /// The funding helper's answer is JSON of no known shape. Carries the
    /// answer, rendered compactly.
    UnexpectedResponse(String),
    /// Funding over TLS is not available on this platform. Carries the URI to
    /// visit by hand.
    PlatformUnsupported(String),
}

/// The mathematical value of an `Error`.
pub enum ErrorView {
    Config(locator::ErrorView),
    NetworkRequired,
    InvalidUrl(Seq<char>),
    MalformedResponse { uri: Seq<char>, body: Seq<u8>, reason: Seq<char> },
    UnexpectedResponse(Seq<char>),
    PlatformUnsupported(Seq<char>),
}

impl View for Error {
    type V = ErrorView;

    open spec fn view(&self) -> ErrorView {
        match self {
            Error::Config(e) => ErrorView::Config(e@),
            Error::NetworkRequired => ErrorView::NetworkRequired,
            Error::InvalidUrl(text) => ErrorView::InvalidUrl(text@),
            Error::MalformedResponse { uri, body, reason } => ErrorView::MalformedResponse {
                uri: uri@,
                body: body@,
                reason: reason@,
            },
            Error::UnexpectedResponse(answer) => ErrorView::UnexpectedResponse(answer@),
            Error::PlatformUnsupported(uri) => ErrorView::PlatformUnsupported(uri@),
        }
    }
}

/// The commands on saved networks.
#[derive(Clone, Debug)]
pub enum Cmd {
    /// Add a new network.
    Add(add::Cmd),
    /// Remove a network.
    Rm(rm::Cmd),
    /// List networks.
    Ls(ls::Cmd),
}

/// The view of what `Cmd::run` returns: the lines as sequences of characters.
pub open spec fn lines_result(r: Result<Vec<String>, Error>) -> Result<Seq<Seq<char>>, ErrorView> {
    match r {
        Ok(lines) => Ok(Seq::new(lines@.len(), |i: int| lines@[i]@)),
        Err(e) => Err(e@),
    }
}

impl Cmd {
    /// Runs the command on the store and returns the lines to print. Adding
    /// saves the network under its name and prints nothing. Removing takes the
    /// network out and prints nothing, or fails with `NotFound` and changes
    /// nothing. Listing prints each saved name once and changes nothing.
    pub fn run(&self, locator: &mut ConfigLocator) -> (r: Result<Vec<String>, Error>)
        ensures
            final(locator).identities() == old(locator).identities(),
            match self {
                Cmd::Add(cmd) => {
                    &&& lines_result(r) == Ok::<Seq<Seq<char>>, ErrorView>(Seq::empty())
                    &&& final(locator).networks() == old(locator).networks().insert(
                        cmd.name@,
                        cmd.network@,
                    )
                },
                Cmd::Rm(cmd) => {
                    &&& lines_result(r) == (if old(locator).networks().contains_key(cmd.name@) {
                        Ok::<Seq<Seq<char>>, ErrorView>(Seq::empty())
                    } else {
                        Err::<Seq<Seq<char>>, ErrorView>(
                            ErrorView::Config(locator::ErrorView::NotFound(cmd.name@)),
                        )
                    })
                    &&& final(locator).networks() == old(locator).networks().remove(cmd.name@)
                },
                Cmd::Ls(_) => {
                    &&& final(locator).networks() == old(locator).networks()
                    &&& lines_result(r) matches Ok(lines)
                    &&& lines.no_duplicates()
                    &&& forall|name: Seq<char>|
                        old(locator).networks().contains_key(name) <==> lines.contains(name)
                },
            },
    {
        match self {
            Cmd::Add(cmd) => match cmd.run(locator) {
                Ok(_) => {
                    let lines: Vec<String> = Vec::new();
                    assert(Seq::new(lines@.len(), |i: int| lines@[i]@) =~= Seq::empty());
                    Ok(lines)
                },
                Err(e) => Err(Error::Config(e)),
            },
            Cmd::Rm(cmd) => match cmd.run(locator) {
                Ok(_) => {
                    let lines: Vec<String> = Vec::new();
                    assert(Seq::new(lines@.len(), |i: int| lines@[i]@) =~= Seq::empty());
                    Ok(lines)
                },
                Err(e) => Err(Error::Config(e)),
            },
            Cmd::Ls(cmd) => {
                let lines = cmd.run(locator);
                proof {
                    let names = Seq::new(lines@.len(), |i: int| lines@[i]@);
                    assert forall|name: Seq<char>|
                        locator.networks().contains_key(name) <==> names.contains(name) by {
                        if names.contains(name) {
                            let i = choose|i: int| 0 <= i < names.len() && names[i] == name;
                            assert(lines@[i]@ == name);
                        }
                        if locator.networks().contains_key(name) {
                            let i = choose|i: int| 0 <= i < lines@.len() && lines@[i]@ == name;
                            assert(names[i] == name);
                        }
                    }
                }
                Ok(lines)
            },
        }
    }
}

/// How a command names its network, before anything is resolved.
#[derive(Clone, Debug)]
pub struct Args {
    /// RPC server endpoint.
    pub rpc_url: Option<String>,
    /// Network passphrase to sign the transaction sent to the RPC server.
    pub network_passphrase: Option<String>,
    /// Name of a saved network.
    pub network: Option<String>,
}

/// The mathematical value of `Args`.
pub struct ArgsView {
    pub rpc_url: Option<Seq<char>>,
    pub network_passphrase: Option<Seq<char>>,
    pub network: Option<Seq<char>>,
}

impl View for Args {
    type V = ArgsView;

    open spec fn view(&self) -> ArgsView {
        ArgsView {
            rpc_url: view_of(self.rpc_url),
            network_passphrase: view_of(self.network_passphrase),
            network: view_of(self.network),
        }
    }
}

impl Default for Args {
    /// Nothing is said about the network.
    fn default() -> (r: Args)
        ensures
            no_network(r@),
    {
        Args { rpc_url: None, network_passphrase: None, network: None }
    }
}

/// A selected network: where to send, and the passphrase that scopes signatures.
#[derive(PartialEq, Eq, Debug)]
pub struct Network {
    /// RPC server endpoint.
    pub rpc_url: String,
    /// Network passphrase to sign the transaction sent to the RPC server.
    pub network_passphrase: String,
}

/// The mathematical value of a `Network`.
pub struct NetworkView {
    pub rpc_url: Seq<char>,
    pub network_passphrase: Seq<char>,
}

impl View for Network {
    type V = NetworkView;

    open spec fn view(&self) -> NetworkView {
        NetworkView { rpc_url: self.rpc_url@, network_passphrase: self.network_passphrase@ }
    }
}

impl Clone for Network {
    fn clone(&self) -> (r: Network)
        ensures
            r@ == self@,
    {
        Network {
            rpc_url: self.rpc_url.clone(),
            network_passphrase: self.network_passphrase.clone(),
        }
    }
}

/// The view of a result that holds a network.
pub open spec fn network_result(r: Result<Network, Error>) -> Result<NetworkView, ErrorView> {
    match r {
        Ok(network) => Ok(network@),
        Err(e) => Err(e@),
    }
}

/// Whether nothing at all was said about the network.
pub open spec fn no_network(args: ArgsView) -> bool {
    args.network is None && args.network_passphrase is None && args.rpc_url is None
}

/// The network that `args` select, given the saved networks. In this order:
/// a name is looked up, and what else was given is not read; else endpoint
/// and passphrase, where both are given, are the network; else none is selected.
pub open spec fn resolved(args: ArgsView, saved: Map<Seq<char>, NetworkView>) -> Result<
    NetworkView,
    ErrorView,
> {
    match args.network {
        Some(name) => match locator::lookup(saved, name) {
            Ok(network) => Ok(network),
            Err(e) => Err(ErrorView::Config(e)),
        },
        None => match (args.rpc_url, args.network_passphrase) {
            (Some(rpc_url), Some(network_passphrase)) => Ok(
                NetworkView { rpc_url, network_passphrase },
            ),
            _ => Err(ErrorView::NetworkRequired),
        },
    }
}

impl Args {
    /// Selects the network.
    pub fn get(&self, locator: &ConfigLocator) -> (r: Result<Network, Error>)
        ensures
            network_result(r) == resolved(self@, locator.networks()),
    {
        match &self.network {
            Some(name) => match locator.read_network(name.as_str()) {
                Ok(network) => Ok(network),
                Err(e) => Err(Error::Config(e)),
            },
            None => match (&self.rpc_url, &self.network_passphrase) {
                (Some(rpc_url), Some(network_passphrase)) => Ok(
                    Network {
                        rpc_url: rpc_url.clone(),
                        network_passphrase: network_passphrase.clone(),
                    },
                ),
                _ => Err(Error::NetworkRequired),
            },
        }
    }

    /// Whether nothing at all was said about the network, so that a command
    /// can leave out what needs one.
    pub fn is_no_network(&self) -> (r: bool)
        ensures
            r == no_network(self@),
    {
        self.network.is_none() && self.network_passphrase.is_none() && self.rpc_url.is_none()
    }
}

/// How a funding request travels.
#[derive(Clone, Copy, PartialEq, Eq, Structural, Debug)]
pub enum Transport {
    /// A plain connection, for `http`.
    Plain,
    /// A connection over TLS, for `https`.
    Tls,
}

/// The first step of funding: the RPC endpoint is to be asked for the base URL
/// of the network's funding helper.
#[derive(Clone, PartialEq, Eq, Debug)]
pub struct HelperUrlQuery {
    /// The RPC endpoint to ask.
    pub rpc_url: String,
    /// The address to fund, as strkey text.
    pub address: String,
}

/// The mathematical value of a `HelperUrlQuery`.
pub struct HelperUrlQueryView {
    pub rpc_url: Seq<char>,
    pub address: Seq<char>,
}

impl View for HelperUrlQuery {
    type V = HelperUrlQueryView;

    open spec fn view(&self) -> HelperUrlQueryView {
        HelperUrlQueryView { rpc_url: self.rpc_url@, address: self.address@ }
    }
}

/// The second step of funding: a GET of `uri` is to be sent over `transport`.
#[derive(Clone, PartialEq, Eq, Debug)]
pub struct FundingRequest {
    pub uri: Uri,
    pub transport: Transport,
}

/// The mathematical value of a `FundingRequest`.
pub struct FundingRequestView {
    pub uri: UriView,
    pub transport: Transport,
}

impl View for FundingRequest {
    type V = FundingRequestView;

    open spec fn view(&self) -> FundingRequestView {
        FundingRequestView { uri: self.uri@, transport: self.transport }
    }
}

/// What the funding helper's answer means.
#[derive(Clone, PartialEq, Eq, Debug)]
pub enum FundingResult {
    /// The address was funded.
    Funded,
    /// The address had been funded before; nothing was done, and nothing is wrong.
    AlreadyFunded,
    /// The answer is not one of success.
    Failed(Error),
}

/// The mathematical value of a `FundingResult`.
pub enum FundingResultView {
    Funded,
    AlreadyFunded,
    Failed(ErrorView),
}

impl View for FundingResult {
    type V = FundingResultView;

    open spec fn view(&self) -> FundingResultView {
        match self {
            FundingResult::Funded => FundingResultView::Funded,
            FundingResult::AlreadyFunded => FundingResultView::AlreadyFunded,
            FundingResult::Failed(e) => FundingResultView::Failed(e@),
        }
    }
}

/// The view of a result that holds a URI.
pub open spec fn uri_result(r: Result<Uri, Error>) -> Result<UriView, ErrorView> {
    match r {
        Ok(uri) => Ok(uri@),
        Err(e) => Err(e@),
    }
}

/// The view of a result that holds a transport.
pub open spec fn transport_result(r: Result<Transport, Error>) -> Result<Transport, ErrorView> {
    match r {
        Ok(transport) => Ok(transport),
        Err(e) => Err(e@),
    }
}

/// The view of a result that holds a funding request.
pub open spec fn request_result(r: Result<FundingRequest, Error>) -> Result<
    FundingRequestView,
    ErrorView,
> {
    match r {
        Ok(request) => Ok(request@),
        Err(e) => Err(e@),
    }
}

/// The view of a result that holds a funding result.
pub open spec fn funding_result(r: Result<FundingResult, Error>) -> Result<
    FundingResultView,
    ErrorView,
> {
    match r {
        Ok(result) => Ok(result@),
        Err(e) => Err(e@),
    }
}

/// The URI to GET for funding `addr`: the helper's base URL as the parser
/// renders it, then `?addr=` and the address. Where the base URL or the
/// composed text is no URI, the error carries the base URL as it was given.
pub open spec fn helper_uri(helper_url_root: Seq<char>, addr: Seq<char>) -> Result<
    UriView,
    ErrorView,
> {
    match parsed_uri(helper_url_root) {
        None => Err(ErrorView::InvalidUrl(helper_url_root)),
        Some(base) => match parsed_uri(base.text + "?addr="@ + addr) {
            None => Err(ErrorView::InvalidUrl(helper_url_root)),
            Some(uri) => Ok(uri),
        },
    }
}

/// The transport for `uri` by its scheme: plain for `http`; TLS for `https`,
/// but an error where the platform cannot fund over TLS; an error for any
/// other scheme and for none. Each error carries the URI.
pub open spec fn transport_for(uri: UriView, tls_supported: bool) -> Result<Transport, ErrorView> {
    if uri.scheme == Some("http"@) {
        Ok(Transport::Plain)
    } else if uri.scheme == Some("https"@) {
        if tls_supported {
            Ok(Transport::Tls)
        } else {
            Err(ErrorView::PlatformUnsupported(uri.text))
        }
    } else {
        Err(ErrorView::InvalidUrl(uri.text))
    }
}

/// The request that funds `addr` through the helper at `helper_url_root`.
pub open spec fn funding_request(
    helper_url_root: Seq<char>,
    addr: Seq<char>,
    tls_supported: bool,
) -> Result<FundingRequestView, ErrorView> {
    match helper_uri(helper_url_root, addr) {
        Err(e) => Err(e),
        Ok(uri) => match transport_for(uri, tls_supported) {
            Err(e) => Err(e),
            Ok(transport) => Ok(FundingRequestView { uri, transport }),
        },
    }
}

/// The string that the member `detail` of an answer holds, if the answer has
/// such a member and its value is a string.
pub open spec fn detail_of(document: DocumentView) -> Option<Seq<char>> {
    match member_of(document, "detail"@) {
        Some(member) => member.text,
        None => None,
    }
}

/// Whether an answer says that the account exists already: in its detail.
pub open spec fn says_already_funded(document: DocumentView) -> bool {
    detail_of(document) matches Some(detail) && contains(detail, "createAccountAlreadyExist"@)
}

/// Whether an answer has a member `successful`, whatever its value. A value
/// of `false` counts too: the helper's answers are loosely typed, and this
/// reading is kept for the sake of those who rely on it, though a helper that
/// answered so would hardly mean success.
pub open spec fn has_successful(document: DocumentView) -> bool {
    member_of(document, "successful"@) is Some
}

/// What the answer `body` to a GET of `uri` means, given what the parser made
/// of the body. In this order: an answer that is not JSON is malformed; a
/// `detail` string that holds `createAccountAlreadyExist` means the address
/// was funded before; a `successful` member, whatever its value, means it was
/// funded now; anything else is unexpected.
pub open spec fn classified(
    uri: Seq<char>,
    body: Seq<u8>,
    answer: Result<DocumentView, Seq<char>>,
) -> FundingResultView {
    match answer {
        Err(reason) => FundingResultView::Failed(
            ErrorView::MalformedResponse { uri, body, reason },
        ),
        Ok(document) => if says_already_funded(document) {
            FundingResultView::AlreadyFunded
        } else if has_successful(document) {
            FundingResultView::Funded
        } else {
            FundingResultView::Failed(ErrorView::UnexpectedResponse(document.rendered))
        },
    }
}

/// A result as the outcome of funding: a failure is an error.
pub open spec fn outcome(result: FundingResultView) -> Result<FundingResultView, ErrorView> {
    match result {
        FundingResultView::Failed(e) => Err(e),
        _ => Ok(result),
    }
}

impl Transport {
    /// Chooses the transport for `uri`. `tls_supported` says whether this
    /// platform can fund over TLS.
    pub fn select(uri: &Uri, tls_supported: bool) -> (r: Result<Transport, Error>)
        ensures
            transport_result(r) == transport_for(uri@, tls_supported),
    {
        match &uri.scheme {
            Some(scheme) => {
                if str_eq(scheme.as_str(), "http") {
                    Ok(Transport::Plain)
                } else if str_eq(scheme.as_str(), "https") {
                    if tls_supported {
                        Ok(Transport::Tls)
                    } else {
                        Err(Error::PlatformUnsupported(uri.text.clone()))
                    }
                } else {
                    Err(Error::InvalidUrl(uri.text.clone()))
                }
            },
            None => {
                Err(Error::InvalidUrl(uri.text.clone()))
            },
        }
    }
}

impl FundingResult {
    /// Classifies the funding helper's answer `body` to a GET of `uri`.
    /// `answer` is the body as a JSON document, or the reason why it is none.
    pub fn classify(uri: &Uri, body: &[u8], answer: Result<Document, String>) -> (r:
        FundingResult)
        ensures
            r@ == classified(uri@.text, body@, document_result(answer)),
    {
        match answer {
            Err(reason) => FundingResult::Failed(
                Error::MalformedResponse {
                    uri: uri.text.clone(),
                    body: vstd::slice::slice_to_vec(body),
                    reason,
                },
            ),
            Ok(document) => {
                let already = match document.get("detail") {
                    Some(member) => match &member.text {
                        Some(detail) => str_contains(detail.as_str(), "createAccountAlreadyExist"),
                        None => false,
                    },
                    None => false,
                };
                if already {
                    FundingResult::AlreadyFunded
                } else if document.get("successful").is_some() {
                    FundingResult::Funded
                } else {
                    FundingResult::Failed(Error::UnexpectedResponse(document.rendered))
                }
            },
        }
    }

    /// The outcome of funding: the result, or the error of a failure.
    pub fn into_result(self) -> (r: Result<FundingResult, Error>)
        ensures
            funding_result(r) == outcome(self@),
    {
        match self {
            FundingResult::Failed(e) => Err(e),
            FundingResult::Funded => Ok(FundingResult::Funded),
            FundingResult::AlreadyFunded => Ok(FundingResult::AlreadyFunded),
        }
    }
}

impl Network {
    /// The network that is used where none is selected.
    pub fn futurenet() -> (r: Network)
        ensures
            r@.rpc_url == "https://rpc-futurenet.stellar.org:443"@,
            r@.network_passphrase == "Test SDF Future Network ; October 2022"@,
    {
        Network {
            rpc_url: "https://rpc-futurenet.stellar.org:443".to_owned(),
            network_passphrase: "Test SDF Future Network ; October 2022".to_owned(),
        }
    }

    /// The text of the URI to GET for funding `addr` through the helper at
    /// `base`: the base as the parser renders it, then `?addr=` and the
    /// address.
    pub fn funding_text(base: &Uri, addr: &str) -> (r: String)
        ensures
            r@ == base@.text + "?addr="@ + addr@,
    {
        let mut text = base.text.clone();
        text.append("?addr=");
        text.append(addr);
        text
    }

    /// The URI to GET for funding `addr`, from the base URL that the RPC
    /// endpoint gave for its funding helper.
    pub fn helper_url(helper_url_root: &str, addr: &str) -> (r: Result<Uri, Error>)
        ensures
            uri_result(r) == helper_uri(helper_url_root@, addr@),
    {
        let base = match Uri::parse(helper_url_root) {
            Some(base) => base,
            None => {
                return Err(Error::InvalidUrl(helper_url_root.to_owned()));
            },
        };
        let text = Network::funding_text(&base, addr);
        match Uri::parse(text.as_str()) {
            Some(uri) => Ok(uri),
            None => Err(Error::InvalidUrl(helper_url_root.to_owned())),
        }
    }

    /// Begins funding `addr` on this network: the RPC endpoint is to be asked
    /// for its funding helper.
    pub fn fund_address(&self, addr: &PublicKey) -> (r: HelperUrlQuery)
        ensures
            r@ == (HelperUrlQueryView {
                rpc_url: self@.rpc_url,
                address: strkey_public_text(addr@),
            }),
    {
        HelperUrlQuery { rpc_url: self.rpc_url.clone(), address: addr.to_string() }
    }
}

impl HelperUrlQuery {
    /// Goes on with the base URL that the RPC endpoint gave: the request to
    /// send, or the reason why none is sent. `tls_supported` says whether this
    /// platform can fund over TLS.
    pub fn answered(&self, helper_url_root: &str, tls_supported: bool) -> (r: Result<
        FundingRequest,
        Error,
    >)
        ensures
            request_result(r) == funding_request(helper_url_root@, self@.address, tls_supported),
    {
        let uri = match Network::helper_url(helper_url_root, self.address.as_str()) {
            Ok(uri) => uri,
            Err(e) => {
                return Err(e);
            },
        };
        match Transport::select(&uri, tls_supported) {
            Ok(transport) => Ok(FundingRequest { uri, transport }),
            Err(e) => Err(e),
        }
    }
}

impl FundingRequest {
    /// Ends funding with the body of the helper's answer.
    pub fn answered(&self, body: &[u8]) -> (r: Result<FundingResult, Error>)
        ensures
            funding_result(r) == outcome(classified(self@.uri.text, body@, json_document(body@))),
    {
        FundingResult::classify(&self.uri, body, parse_json(body)).into_result()
    }
}

/// A saved network that is named is the one selected, whatever endpoint and
/// passphrase are given beside the name.
pub proof fn lemma_named_network_takes_precedence(
    args: ArgsView,
    saved: Map<Seq<char>, NetworkView>,
    name: Seq<char>,
)
    requires
        args.network == Some(name),
        saved.contains_key(name),
    ensures
        resolved(args, saved) == Ok::<NetworkView, ErrorView>(saved[name]),
{
}

/// A name that is not saved is reported as not found, whatever else is given.
pub proof fn lemma_unknown_network_is_not_found(
    args: ArgsView,
    saved: Map<Seq<char>, NetworkView>,
    name: Seq<char>,
)
    requires
        args.network == Some(name),
        !saved.contains_key(name),
    ensures
        resolved(args, saved) == Err::<NetworkView, ErrorView>(
            ErrorView::Config(locator::ErrorView::NotFound(name)),
        ),
{
}

/// Without a name, endpoint and passphrase given together are the network,
/// unchanged and whatever is saved.
pub proof fn lemma_explicit_network_is_taken_as_given(
    args: ArgsView,
    saved: Map<Seq<char>, NetworkView>,
    rpc_url: Seq<char>,
    network_passphrase: Seq<char>,
)
    requires
        args.network is None,
        args.rpc_url == Some(rpc_url),
        args.network_passphrase == Some(network_passphrase),
    ensures
        resolved(args, saved) == Ok::<NetworkView, ErrorView>(
            NetworkView { rpc_url, network_passphrase },
        ),
{
}

/// Without a name, and with endpoint or passphrase missing, no network is
/// selected.
pub proof fn lemma_incomplete_network_is_rejected(
    args: ArgsView,
    saved: Map<Seq<char>, NetworkView>,
)
    requires
        args.network is None,
        args.rpc_url is None || args.network_passphrase is None,
    ensures
        resolved(args, saved) == Err::<NetworkView, ErrorView>(ErrorView::NetworkRequired),
{
}

/// Where nothing was said about the network, none is selected, whatever is saved.
pub proof fn lemma_no_network_is_rejected(args: ArgsView, saved: Map<Seq<char>, NetworkView>)
    requires
        no_network(args),
    ensures
        resolved(args, saved) == Err::<NetworkView, ErrorView>(ErrorView::NetworkRequired),
{
}

/// On a platform that cannot fund over TLS, an `https` URI gets no transport,
/// so no request is made of it: funding ends with `PlatformUnsupported`, which
/// carries the URI.
pub proof fn lemma_tls_funding_needs_platform_support(
    helper_url_root: Seq<char>,
    addr: Seq<char>,
    uri: UriView,
)
    requires
        uri.scheme == Some("https"@),
    ensures
        transport_for(uri, false) == Err::<Transport, ErrorView>(
            ErrorView::PlatformUnsupported(uri.text),
        ),
        helper_uri(helper_url_root, addr) == Ok::<UriView, ErrorView>(uri) ==> funding_request(
            helper_url_root,
            addr,
            false,
        ) == Err::<FundingRequestView, ErrorView>(ErrorView::PlatformUnsupported(uri.text)),
{
    reveal_strlit("http");
    reveal_strlit("https");
    assert("http"@.len() != "https"@.len());
}

/// A request is only ever made for `http`, over a plain connection, or for
/// `https`, over TLS.
pub proof fn lemma_request_matches_scheme(
    helper_url_root: Seq<char>,
    addr: Seq<char>,
    tls_supported: bool,
)
    ensures
        funding_request(helper_url_root, addr, tls_supported) matches Ok(request) ==> {
            &&& helper_uri(helper_url_root, addr) == Ok::<UriView, ErrorView>(request.uri)
            &&& request.transport == Transport::Plain ==> request.uri.scheme == Some("http"@)
            &&& request.transport == Transport::Tls ==> request.uri.scheme == Some("https"@)
                && tls_supported
        },
{
}

/// A `successful` member counts whatever its value: an answer that is JSON,
/// has the member and does not say that the account exists means that the
/// address was funded.
pub proof fn lemma_successful_member_means_funded(
    uri: Seq<char>,
    body: Seq<u8>,
    document: DocumentView,
)
    requires
        has_successful(document),
        !says_already_funded(document),
    ensures
        outcome(classified(uri, body, Ok(document))) == Ok::<FundingResultView, ErrorView>(
            FundingResultView::Funded,
        ),
{
}

/// An answer that says that the account exists is no error, with or without
/// a `successful` member.
pub proof fn lemma_already_funded_is_no_error(
    uri: Seq<char>,
    body: Seq<u8>,
    document: DocumentView,
)
    requires
        says_already_funded(document),
    ensures
        outcome(classified(uri, body, Ok(document))) == Ok::<FundingResultView, ErrorView>(
            FundingResultView::AlreadyFunded,
        ),
{
}

/// Funding fails exactly where the answer is not JSON, or is JSON that neither
/// says that the account exists nor has a `successful` member.
pub proof fn lemma_funding_fails_exactly_when(
    uri: Seq<char>,
    body: Seq<u8>,
    answer: Result<DocumentView, Seq<char>>,
)
    ensures
        outcome(classified(uri, body, answer)) is Err <==> (answer matches Ok(document)
            ==> !says_already_funded(document) && !has_successful(document)),
{
}

/// An answer that is no JSON object, such as an array, a string or `null`,
/// is unexpected, and the error carries it.
pub proof fn lemma_only_objects_are_answers(
    uri: Seq<char>,
    body: Seq<u8>,
    document: DocumentView,
)
    requires
        document.members is None,
    ensures
        outcome(classified(uri, body, Ok(document))) == Err::<FundingResultView, ErrorView>(
            ErrorView::UnexpectedResponse(document.rendered),
        ),
{
}

} // verus!
