use vstd::prelude::*;
use interactsh_rs::client::{ClientBuilder, UnregisteredClient};
use interactsh_rs::errors::ClientBuildError;
use crate::error::ClientError;
use crate::session::HandshakeRequest;

verus! {

/// `ClientBuilder` of interactsh-rs, carried through as an opaque value.
#[verifier::external_type_specification]
#[verifier::external_body]
pub struct ExClientBuilder(ClientBuilder);

/// `UnregisteredClient` of interactsh-rs, carried through as an opaque
/// value: the client that is ready to make the handshake.
#[verifier::external_type_specification]
#[verifier::external_body]
pub struct ExUnregisteredClient(UnregisteredClient);

/// `ClientBuildError` of interactsh-rs, carried through as an opaque value:
/// why no client could be built.
#[verifier::external_type_specification]
#[verifier::external_body]
pub struct ExClientBuildError(ClientBuildError);

/// `ClientBuilder::default` of interactsh-rs: a builder with that crate's
/// defaults, among them a public server picked by chance. Nothing is
/// claimed of it.
pub assume_specification[ <ClientBuilder as Default>::default ]() -> ClientBuilder;

/// `ClientBuilder::parse_logs` of interactsh-rs: hands the builder back
/// with the setting taken. Nothing is claimed of it.
pub assume_specification[ ClientBuilder::parse_logs ](
    builder: ClientBuilder,
    parse_logs: bool,
) -> ClientBuilder;

/// `ClientBuilder::with_server` of interactsh-rs: hands the builder back
/// with the server taken. Nothing is claimed of it.
pub assume_specification[ ClientBuilder::with_server ](
    builder: ClientBuilder,
    server: String,
) -> ClientBuilder;

/// `ClientBuilder::build` of interactsh-rs: makes fresh keys and an HTTP
/// client, and fails where either cannot be had. Nothing is claimed of
/// which it is.
pub assume_specification[ ClientBuilder::build ](builder: ClientBuilder) -> Result<
    UnregisteredClient,
    ClientBuildError,
>;

/// `ClientBuilder::with_timeout` of interactsh-rs, with the limit given in
/// whole seconds: hands the builder back with the limit taken. Nothing is
/// claimed of it.
#[verifier::external_body]
fn with_timeout_secs(builder: ClientBuilder, secs: u64) -> ClientBuilder {
    builder.with_timeout(std::time::Duration::from_secs(secs))
}

/// What a finished build means for the registration: a client that was
/// built is handed on as it is, and every failure to build one is a failed
/// registration.
pub fn build_outcome(built: Result<UnregisteredClient, ClientBuildError>) -> (r: Result<
    UnregisteredClient,
    ClientError,
>)
    ensures
        match built {
            Ok(client) => r == Ok::<UnregisteredClient, ClientError>(client),
            Err(_) => r matches Err(e) && e == ClientError::RegistrationFailed,
        },
{
    match built {
        Ok(client) => Ok(client),
        Err(_) => Err(ClientError::RegistrationFailed),
    }
}

/// Builds the client that is to make the handshake: structured logs asked
/// for, the named server where there is one, and the limit of the request.
/// Whether a client can be built is for the builder to say; where it cannot,
/// the registration has failed.
pub fn unregistered_client(request: &HandshakeRequest) -> (r: Result<
    UnregisteredClient,
    ClientError,
>)
    ensures
        r matches Err(e) ==> e == ClientError::RegistrationFailed,
{
    let mut builder = ClientBuilder::default().parse_logs(request.parse_logs());
    match request.server_name() {
        Some(server) => {
            builder = builder.with_server(server);
        },
        None => {},
    }
    builder = with_timeout_secs(builder, request.timeout_secs());
    build_outcome(builder.build())
}

} // verus!
