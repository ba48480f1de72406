//! Launching a kernel in a ready environment: the request to send and the
//! reading of the answer.

use crate::environment::EnvironmentHandle;
use vstd::prelude::*;

verus! {

/// `serde_json::Error`, the error of writing and reading JSON. Nothing is
/// claimed of what it holds: it is only told apart from success.
#[verifier::external_type_specification]
#[verifier::external_body]
pub struct ExJsonError(serde_json::Error);

/// A string without the run of `c` at its end.
pub open spec fn without_trailing(s: Seq<char>, c: char) -> Seq<char>
    decreases s.len(),
{
    if s.len() > 0 && s.last() == c {
        without_trailing(s.drop_last(), c)
    } else {
        s
    }
}

/// A string without the run of `c` at its start.
pub open spec fn without_leading(s: Seq<char>, c: char) -> Seq<char>
    decreases s.len(),
{
    if s.len() > 0 && s[0] == c {
        without_leading(s.drop_first(), c)
    } else {
        s
    }
}

/// The address of a path of the server's interface: the base address without
/// slashes at its end, `/api/`, and the path without slashes at its start.
pub open spec fn api_address(base_url: Seq<char>, path: Seq<char>) -> Seq<char> {
    without_trailing(base_url, '/') + "/api/"@ + without_leading(path, '/')
}

/// The address to which a kernel is requested from an environment.
pub open spec fn kernels_address(base_url: Seq<char>) -> Seq<char> {
    api_address(base_url, "/kernels"@)
}

/// The value of the authorization header that goes with a credential.
pub open spec fn authorization_for(token: Seq<char>) -> Seq<char> {
    "token "@ + token
}

/// The JSON text that `serde_json::to_string` writes for a
/// `jupyter_websocket_client::KernelLaunchRequest` with the given kernel
/// type and path, if it writes one.
pub uninterp spec fn launch_body_json(name: Seq<char>, path: Option<Seq<char>>) -> Option<
    Seq<char>,
>;

/// The text of an optional string slice.
pub open spec fn slice_text(s: Option<&str>) -> Option<Seq<char>> {
    match s {
        Some(t) => Some(t@),
        None => None,
    }
}

/// The kernel identifier that `serde_json::from_str` reads from the text of a
/// `jupyter_websocket_client::Kernel`, if the text is one.
pub uninterp spec fn kernel_id_json(body: Seq<char>) -> Option<Seq<char>>;

/// The request that asks an environment for a kernel. It is sent with the
/// method `POST`, and `authorization` is the value of its `Authorization`
/// header.
#[derive(Debug, PartialEq, Eq)]
pub struct LaunchRequest {
    pub url: String,
    pub authorization: String,
    pub body: String,
}

/// The mathematical value of a [`LaunchRequest`].
pub struct LaunchRequestView {
    pub url: Seq<char>,
    pub authorization: Seq<char>,
    pub body: Seq<char>,
}

impl View for LaunchRequest {
    type V = LaunchRequestView;

    open spec fn view(&self) -> LaunchRequestView {
        LaunchRequestView { url: self.url@, authorization: self.authorization@, body: self.body@ }
    }
}

/// The kernel that an environment launched.
#[derive(Debug, PartialEq, Eq)]
pub struct KernelHandle {
    kernel_id: String,
}

impl View for KernelHandle {
    type V = Seq<char>;

    closed spec fn view(&self) -> Seq<char> {
        self.kernel_id@
    }
}

impl Clone for KernelHandle {
    fn clone(&self) -> (copy: Self)
        ensures
            copy@ == self@,
    {
        KernelHandle { kernel_id: self.kernel_id.clone() }
    }
}

impl KernelHandle {
    /// The identifier under which the environment knows the kernel.
    pub fn kernel_id(&self) -> (id: &str)
        ensures
            id@ == self@,
    {
        self.kernel_id.as_str()
    }
}

/// Why no kernel was launched.
#[derive(Debug, PartialEq, Eq)]
pub enum LaunchError {
    /// The request's body could not be written.
    Unencodable,
    /// The server answered with a status that is not a success; `body` is the
    /// whole of its answer.
    Rejected { status: u16, body: String },
    /// The server answered with success, but `body` is not the description of
    /// a kernel.
    Undecodable { body: String },
}

/// The mathematical value of a [`LaunchError`].
pub enum LaunchErrorView {
    Unencodable,
    Rejected { status: u16, body: Seq<char> },
    Undecodable { body: Seq<char> },
}

impl View for LaunchError {
    type V = LaunchErrorView;

    open spec fn view(&self) -> LaunchErrorView {
        match *self {
            LaunchError::Unencodable => LaunchErrorView::Unencodable,
            LaunchError::Rejected { status, body } => LaunchErrorView::Rejected {
                status,
                body: body@,
            },
            LaunchError::Undecodable { body } => LaunchErrorView::Undecodable { body: body@ },
        }
    }
}

/// The mathematical value of what building the request gives.
pub open spec fn request_view(r: Result<LaunchRequest, LaunchError>) -> Result<
    LaunchRequestView,
    LaunchErrorView,
> {
    match r {
        Ok(request) => Ok(request@),
        Err(e) => Err(e@),
    }
}

/// The mathematical value of what a launch gives.
pub open spec fn launch_view(r: Result<KernelHandle, LaunchError>) -> Result<
    Seq<char>,
    LaunchErrorView,
> {
    match r {
        Ok(kernel) => Ok(kernel@),
        Err(e) => Err(e@),
    }
}

/// Whether a status code reports success: the codes from 200 to 299.
pub open spec fn is_success(status: u16) -> bool {
    200 <= status <= 299
}

/// The request for a kernel, given what writing its body gave.
pub open spec fn assembled_request(
    base_url: Seq<char>,
    auth_token: Seq<char>,
    encoded: Option<Seq<char>>,
) -> Result<LaunchRequestView, LaunchErrorView> {
    match encoded {
        Some(body) => Ok(
            LaunchRequestView {
                url: kernels_address(base_url),
                authorization: authorization_for(auth_token),
                body,
            },
        ),
        None => Err(LaunchErrorView::Unencodable),
    }
}

/// What a launch gives, given the server's answer and what reading a kernel
/// from its body gave.
pub open spec fn launch_result_with(
    status: u16,
    body: Seq<char>,
    decoded: Option<Seq<char>>,
) -> Result<Seq<char>, LaunchErrorView> {
    if !is_success(status) {
        Err(LaunchErrorView::Rejected { status, body })
    } else {
        match decoded {
            Some(id) => Ok(id),
            None => Err(LaunchErrorView::Undecodable { body }),
        }
    }
}

/// What a launch gives for the server's answer.
pub open spec fn launch_result(status: u16, body: Seq<char>) -> Result<
    Seq<char>,
    LaunchErrorView,
> {
    launch_result_with(status, body, kernel_id_json(body))
}

/// Calls `jupyter_websocket_client::RemoteServer::api_url` on a server made
/// of the address and the credential. The contract claims what the crate's
/// source shows: the address without slashes at its end, `/api/`, and the
/// path without slashes at its start.
#[verifier::external_body]
fn server_api_url(base_url: &str, token: &str, path: &str) -> (url: String)
    ensures
        url@ == api_address(base_url@, path@),
{
    let server = jupyter_websocket_client::RemoteServer {
        base_url: base_url.to_string(),
        token: token.to_string(),
    };
    server.api_url(path)
}

/// Calls `serde_json::to_string` on a
/// `jupyter_websocket_client::KernelLaunchRequest` with the given name and
/// path. The contract claims that the outcome is a function of the two
/// alone, called [`launch_body_json`].
#[verifier::external_body]
fn encode_launch_body(name: &str, path: Option<&str>) -> (r: Result<String, serde_json::Error>)
    ensures
        match r {
            Ok(body) => launch_body_json(name@, slice_text(path)) == Some(body@),
            Err(_) => launch_body_json(name@, slice_text(path)) is None,
        },
{
    let request = jupyter_websocket_client::KernelLaunchRequest {
        name: name.to_string(),
        path: path.map(str::to_string),
    };
    serde_json::to_string(&request)
}

/// Calls `serde_json::from_str` for a `jupyter_websocket_client::Kernel` and
/// keeps its identifier. The contract claims that the outcome is a function
/// of the text alone, called [`kernel_id_json`].
#[verifier::external_body]
fn decode_kernel_id(body: &str) -> (r: Result<String, serde_json::Error>)
    ensures
        match r {
            Ok(id) => kernel_id_json(body@) == Some(id@),
            Err(_) => kernel_id_json(body@) is None,
        },
{
    let kernel: jupyter_websocket_client::Kernel = serde_json::from_str(body)?;
    Ok(kernel.id)
}

/// The text of what an encoder or decoder of JSON gave.
pub open spec fn json_text(r: Result<String, serde_json::Error>) -> Option<Seq<char>> {
    match r {
        Ok(text) => Some(text@),
        Err(_) => None,
    }
}

/// Whether a status code reports success.
pub fn status_is_success(status: u16) -> (ok: bool)
    ensures
        ok == is_success(status),
{
    200 <= status && status <= 299
}

/// The value of the authorization header for a credential.
pub fn authorization_value(token: &str) -> (value: String)
    ensures
        value@ == authorization_for(token@),
{
    let mut value = String::from_str("token ");
    value.append(token);
    value
}

/// Puts the request for a kernel together, given what writing its body gave.
pub fn assemble_launch_request(
    environment: &EnvironmentHandle,
    encoded: Result<String, serde_json::Error>,
) -> (r: Result<LaunchRequest, LaunchError>)
    ensures
        request_view(r) == assembled_request(
            environment@.base_url,
            environment@.auth_token,
            json_text(encoded),
        ),
{
    match encoded {
        Ok(body) => Ok(
            LaunchRequest {
                url: server_api_url(environment.base_url(), environment.auth_token(), "/kernels"),
                authorization: authorization_value(environment.auth_token()),
                body,
            },
        ),
        Err(_) => Err(LaunchError::Unencodable),
    }
}

/// The request that asks an environment for a kernel of the named type,
/// started at the given path if there is one.
pub fn launch_request_at(
    environment: &EnvironmentHandle,
    kernel_name: &str,
    path: Option<&str>,
) -> (r: Result<LaunchRequest, LaunchError>)
    ensures
        request_view(r) == assembled_request(
            environment@.base_url,
            environment@.auth_token,
            launch_body_json(kernel_name@, slice_text(path)),
        ),
{
    assemble_launch_request(environment, encode_launch_body(kernel_name, path))
}

/// The request that asks an environment for a kernel of the named type. Its
/// body names the type and no path.
pub fn launch_request(environment: &EnvironmentHandle, kernel_name: &str) -> (r: Result<
    LaunchRequest,
    LaunchError,
>)
    ensures
        request_view(r) == assembled_request(
            environment@.base_url,
            environment@.auth_token,
            launch_body_json(kernel_name@, None),
        ),
{
    launch_request_at(environment, kernel_name, None)
}

/// Reads the body of a successful answer, given what reading a kernel from
/// it gave.
pub fn kernel_from(body: String, decoded: Result<String, serde_json::Error>) -> (r: Result<
    KernelHandle,
    LaunchError,
>)
    ensures
        launch_view(r) == match json_text(decoded) {
            Some(id) => Ok::<Seq<char>, LaunchErrorView>(id),
            None => Err::<Seq<char>, LaunchErrorView>(LaunchErrorView::Undecodable { body: body@ }),
        },
{
    match decoded {
        Ok(id) => Ok(KernelHandle { kernel_id: id }),
        Err(_) => Err(LaunchError::Undecodable { body }),
    }
}

/// Reads the server's answer to a launch request: a status that is not a
/// success is a rejection that carries the whole body; a success gives the
/// kernel that the body describes.
pub fn read_launch_response(status: u16, body: String) -> (r: Result<KernelHandle, LaunchError>)
    ensures
        launch_view(r) == launch_result(status, body@),
{
    if !status_is_success(status) {
        Err(LaunchError::Rejected { status, body })
    } else {
        let decoded = decode_kernel_id(body.as_str());
        kernel_from(body, decoded)
    }
}

/// For a base address that ends in no slash, the address for requesting a
/// kernel is that address followed by `/api/kernels`.
pub proof fn lemma_kernels_address(base_url: Seq<char>)
    requires
        base_url.len() == 0 || base_url.last() != '/',
    ensures
        kernels_address(base_url) == base_url + "/api/kernels"@,
{
    reveal_strlit("/kernels");
    reveal_strlit("/api/");
    reveal_strlit("/api/kernels");
    let path = "/kernels"@;
    let rest = path.drop_first();
    assert(rest[0] == 'k');
    assert(without_leading(rest, '/') == rest);
    assert(without_leading(path, '/') == rest);
    assert("/api/"@ + rest =~= "/api/kernels"@);
    assert(base_url + "/api/"@ + rest =~= base_url + ("/api/"@ + rest));
}

/// An answer whose status is not a success always gives a rejection that
/// carries the answer's body, whatever the body holds.
pub proof fn lemma_rejection_carries_body(status: u16, body: Seq<char>)
    requires
        !is_success(status),
    ensures
        launch_result(status, body) == Err::<Seq<char>, LaunchErrorView>(
            LaunchErrorView::Rejected { status, body },
        ),
{
}

} // verus!
