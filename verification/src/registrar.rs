//! Clients, the registrar that holds them, and how a client is bound to a redirect url.
//!
//! When an oauth request turns up, it is the registrar's duty to verify the requested scope and
//! redirect url for consistency with the permissions granted and the urls registered.

use vstd::prelude::*;
use vstd::hash_map::StringHashMap;
use vstd::utf8::encode_utf8;
use crate::digest::{sha256, sha256_digest, verify_slices_are_equal, within_sha256_limit};
use crate::redirect::RedirectUri;
use crate::scope::Scope;

verus! {

// ---------------------------------------------------------------------------------------------
// The model
// ---------------------------------------------------------------------------------------------

/// How a client proves its identity.
pub enum ClientTypeModel {
    /// No authentication information.
    Public,
    /// The stored form of the client's passphrase.
    Confidential { passdata: Seq<u8> },
}

/// What a [`Client`] holds.
pub struct ClientModel {
    pub client_id: Seq<char>,
    pub redirect_uri: Seq<char>,
    pub default_scope: Seq<char>,
    pub client_type: ClientTypeModel,
}

/// The bytes that are hashed to store or check a passphrase: the client id in UTF-8, then the
/// passphrase, so that the id salts the hash.
pub open spec fn salted_passphrase(client_id: Seq<char>, passphrase: Seq<u8>) -> Seq<u8> {
    encode_utf8(client_id) + passphrase
}

/// What a confidential client stores of its passphrase.
pub open spec fn passdata_of(client_id: Seq<char>, passphrase: Seq<u8>) -> Seq<u8> {
    sha256_digest(salted_passphrase(client_id, passphrase))
}

/// A passphrase that can be hashed together with the client id (`ring` has a length limit).
pub open spec fn hashable(client_id: Seq<char>, passphrase: Seq<u8>) -> bool {
    within_sha256_limit(salted_passphrase(client_id, passphrase).len())
}

/// Authentication succeeds when the client is public and no passphrase is given, or when the
/// client is confidential and the given passphrase hashes to the stored passdata.
pub open spec fn authenticates(client: ClientModel, passphrase: Option<Seq<u8>>) -> bool {
    match (passphrase, client.client_type) {
        (None, ClientTypeModel::Public) => true,
        (Some(p), ClientTypeModel::Confidential { passdata }) =>
            passdata_of(client.client_id, p) == passdata,
        _ => false,
    }
}

/// Authenticating hashes the passphrase only for a confidential client given a passphrase.
pub open spec fn can_check(client: ClientModel, passphrase: Option<Seq<u8>>) -> bool {
    match (passphrase, client.client_type) {
        (Some(p), ClientTypeModel::Confidential { .. }) => hashable(client.client_id, p),
        _ => true,
    }
}

/// The bytes of a passphrase, if one is given.
pub open spec fn view_passphrase(passphrase: Option<&[u8]>) -> Option<Seq<u8>> {
    match passphrase {
        Some(p) => Some(p@),
        None => None,
    }
}

// ---------------------------------------------------------------------------------------------
// Passphrase storage
// ---------------------------------------------------------------------------------------------

/// Determines how passphrases are stored and checked: the passphrase is hashed with SHA-256,
/// salted with the client id.
pub struct SHA256Policy;

/// The client id's UTF-8 bytes followed by the passphrase.
fn salt_passphrase(client_id: &str, passphrase: &[u8]) -> (r: Vec<u8>)
    ensures
        r@ == salted_passphrase(client_id@, passphrase@),
{
    let id_bytes = client_id.as_bytes();
    let mut data: Vec<u8> = Vec::new();
    let mut i: usize = 0;
    while i < id_bytes.len()
        invariant
            i <= id_bytes@.len(),
            id_bytes@ == encode_utf8(client_id@),
            data@ == id_bytes@.take(i as int),
        decreases id_bytes@.len() - i,
    {
        data.push(id_bytes[i]);
        i = i + 1;
        assert(data@ =~= id_bytes@.take(i as int));
    }
    let mut j: usize = 0;
    while j < passphrase.len()
        invariant
            j <= passphrase@.len(),
            data@ == encode_utf8(client_id@) + passphrase@.take(j as int),
        decreases passphrase@.len() - j,
    {
        data.push(passphrase[j]);
        j = j + 1;
        assert(data@ =~= encode_utf8(client_id@) + passphrase@.take(j as int));
    }
    assert(passphrase@.take(passphrase@.len() as int) =~= passphrase@);
    data
}

impl SHA256Policy {
    /// Transform the passphrase so it can be stored in a confidential client.
    pub fn store(&self, client_id: &str, passphrase: &[u8]) -> (r: Vec<u8>)
        requires
            hashable(client_id@, passphrase@),
        ensures
            r@ == passdata_of(client_id@, passphrase@),
            r@ == sha256_digest(encode_utf8(client_id@) + passphrase@),
            r@.len() == 32,
    {
        let data = salt_passphrase(client_id, passphrase);
        sha256(data.as_slice())
    }

    /// Check a passphrase against what `store` made of the right one.
    pub fn check(&self, client_id: &str, passphrase: &[u8], stored: &[u8]) -> (r: Result<(), ring::error::Unspecified>)
        requires
            hashable(client_id@, passphrase@),
        ensures
            r is Ok <==> passdata_of(client_id@, passphrase@) == stored@,
            r is Ok <==> sha256_digest(encode_utf8(client_id@) + passphrase@) == stored@,
            passdata_of(client_id@, passphrase@).len() == 32,
            stored@.len() != 32 ==> r is Err,
    {
        let data = salt_passphrase(client_id, passphrase);
        let digest = sha256(data.as_slice());
        verify_slices_are_equal(digest.as_slice(), stored)
    }
}

// ---------------------------------------------------------------------------------------------
// Clients
// ---------------------------------------------------------------------------------------------

/// Authentication failed: the client type and the passphrase given do not fit, or the
/// passphrase is not the client's.
#[derive(Debug, Clone, Copy, PartialEq, Eq)]
pub struct AuthenticationError;

/// Clients are registered users of authorization tokens.
///
/// There are two types of clients, public and confidential. Public clients operate without proof
/// of identity while confidential clients are granted additional assertions on their communication
/// with the servers. They might be allowed more freedom as they are harder to impersonate.
pub struct Client {
    client_id: String,
    redirect_uri: RedirectUri,
    default_scope: Scope,
    client_type: ClientType,
}

enum ClientType {
    /// A public client with no authentication information
    Public,
    /// A confidential client who needs to be authenticated before communicating
    Confidential { passdata: Vec<u8> },
}

impl View for Client {
    type V = ClientModel;

    closed spec fn view(&self) -> ClientModel {
        ClientModel {
            client_id: self.client_id@,
            redirect_uri: self.redirect_uri@,
            default_scope: self.default_scope@,
            client_type: match self.client_type {
                ClientType::Public => ClientTypeModel::Public,
                ClientType::Confidential { passdata } => ClientTypeModel::Confidential { passdata: passdata@ },
            },
        }
    }
}

impl Client {
    /// Create a public client.
    pub fn public(client_id: &str, redirect_uri: RedirectUri, default_scope: Scope) -> (r: Client)
        ensures
            r@ == (ClientModel {
                client_id: client_id@,
                redirect_uri: redirect_uri@,
                default_scope: default_scope@,
                client_type: ClientTypeModel::Public,
            }),
    {
        Client {
            client_id: client_id.to_owned(),
            redirect_uri,
            default_scope,
            client_type: ClientType::Public,
        }
    }

    /// Create a confidential client, which stores its passphrase as a salted hash.
    pub fn confidential(
        client_id: &str,
        redirect_uri: RedirectUri,
        default_scope: Scope,
        passphrase: &[u8],
    ) -> (r: Client)
        requires
            hashable(client_id@, passphrase@),
        ensures
            r@ == (ClientModel {
                client_id: client_id@,
                redirect_uri: redirect_uri@,
                default_scope: default_scope@,
                client_type: ClientTypeModel::Confidential {
                    passdata: passdata_of(client_id@, passphrase@),
                },
            }),
            passdata_of(client_id@, passphrase@).len() == 32,
            r@.client_type == (ClientTypeModel::Confidential {
                passdata: sha256_digest(encode_utf8(client_id@) + passphrase@),
            }),
    {
        let passdata = SHA256Policy.store(client_id, passphrase);
        Client {
            client_id: client_id.to_owned(),
            redirect_uri,
            default_scope,
            client_type: ClientType::Confidential { passdata },
        }
    }

    /// Try to authenticate with the client and passphrase. This check will succeed if either the
    /// client is public and no passphrase was provided or if the client is confidential and the
    /// passphrase matches.
    pub fn check_authentication(&self, passphrase: Option<&[u8]>) -> (r: Result<&Client, AuthenticationError>)
        requires
            can_check(self@, view_passphrase(passphrase)),
        ensures
            r is Ok <==> authenticates(self@, view_passphrase(passphrase)),
            r matches Ok(c) ==> c == self,
            passphrase is None ==> (r is Ok <==> self@.client_type is Public),
            passphrase matches Some(p) ==> match self@.client_type {
                ClientTypeModel::Public => r is Err,
                ClientTypeModel::Confidential { passdata } =>
                    (r is Ok <==> sha256_digest(encode_utf8(self@.client_id) + p@) == passdata),
            },
    {
        match (passphrase, &self.client_type) {
            (None, ClientType::Public) => Ok(self),
            (Some(provided), ClientType::Confidential { passdata: stored }) => {
                match SHA256Policy.check(self.client_id.as_str(), provided, stored.as_slice()) {
                    Ok(()) => Ok(self),
                    Err(_) => Err(AuthenticationError),
                }
            },
            _ => Err(AuthenticationError),
        }
    }
}

// ---------------------------------------------------------------------------------------------
// Binding a client to its redirect url
// ---------------------------------------------------------------------------------------------

/// Handled responses from a registrar.
#[derive(Debug, Clone, Copy, PartialEq, Eq)]
pub enum RegistrarError {
    /// Indicates an entirely unknown client.
    Unregistered,
    /// The redirection url was not the registered one.
    ///
    /// It is generally advisable to perform an exact match on the url, to prevent injection of
    /// bad query parameters for example but not strictly required.
    MismatchedRedirect,
    /// The client is not authorized.
    UnauthorizedClient,
}

/// A pair of `client_id` and an optional `redirect_uri`.
///
/// Such a pair is received in an Authorization Code Request. A registrar which allows multiple
/// urls per client can use the optional parameter to choose the correct url.
pub struct ClientUrl {
    /// The identifier indicated
    pub client_id: String,
    /// The parsed url, if any.
    pub redirect_uri: Option<RedirectUri>,
}

/// A client and its chosen redirection endpoint.
///
/// This instance can be used to complete parameter negotiation with the registrar. In the simplest
/// case this only includes agreeing on a scope allowed for the client.
pub struct BoundClient<'a> {
    /// The identifier of the client, moved from the request.
    pub client_id: String,
    /// The chosen redirection endpoint url, moved from the request or overwritten.
    pub redirect_uri: RedirectUri,
    /// A reference to the client instance, for authentication and to retrieve additional
    /// information.
    pub client: &'a Client,
}

/// These are the parameters presented to the resource owner when confirming or denying a grant
/// request.
#[derive(Clone)]
pub struct PreGrant {
    /// The registered client id.
    pub client_id: String,
    /// The redirection url associated with the above client.
    pub redirect_uri: RedirectUri,
    /// A scope admissible for the above client.
    pub scope: Scope,
}

/// What a [`BoundClient`] holds.
pub struct BoundModel {
    pub client_id: Seq<char>,
    pub redirect_uri: Seq<char>,
    pub client: ClientModel,
}

impl<'a> View for BoundClient<'a> {
    type V = BoundModel;

    open spec fn view(&self) -> BoundModel {
        BoundModel { client_id: self.client_id@, redirect_uri: self.redirect_uri@, client: self.client@ }
    }
}

/// The serialization of a redirect url, if one is given.
pub open spec fn view_redirect(redirect_uri: Option<RedirectUri>) -> Option<Seq<char>> {
    match redirect_uri {
        Some(u) => Some(u@),
        None => None,
    }
}

/// How a registrar holding `clients` answers a request naming `client_id` and, maybe,
/// `redirect_uri`: an unknown client is refused; a given url must equal the registered one
/// exactly; with no url given, the registered one is chosen.
pub open spec fn bind_redirect(
    clients: Map<Seq<char>, ClientModel>,
    client_id: Seq<char>,
    redirect_uri: Option<Seq<char>>,
) -> Result<BoundModel, RegistrarError> {
    if !clients.contains_key(client_id) {
        Err(RegistrarError::Unregistered)
    } else {
        let client = clients[client_id];
        match redirect_uri {
            Some(url) => if url == client.redirect_uri {
                Ok(BoundModel { client_id, redirect_uri: url, client })
            } else {
                Err(RegistrarError::MismatchedRedirect)
            },
            None => Ok(BoundModel { client_id, redirect_uri: client.redirect_uri, client }),
        }
    }
}

impl<'a> BoundClient<'a> {
    /// Finish the negotiations with the registrar.
    ///
    /// The registrar is responsible for choosing the appropriate scope for the client. In the most
    /// simple case, it will always choose some default scope for the client, regardless of its
    /// wish. Currently, this scope agreement algorithm is the only supported method.
    pub fn negotiate(self, _scope: Option<Scope>) -> (r: PreGrant)
        ensures
            r.client_id@ == self.client_id@,
            r.redirect_uri@ == self.redirect_uri@,
            r.scope@ == self.client@.default_scope,
    {
        PreGrant {
            client_id: self.client_id,
            redirect_uri: self.redirect_uri,
            scope: self.client.default_scope.clone(),
        }
    }
}

/// Registrars provide a way to interact with clients.
///
/// Most importantly, they determine defaulted parameters for a request as well as the validity
/// of provided parameters.
pub trait Registrar {
    /// Determine the allowed scope and redirection url for the client. The registrar may override
    /// the scope entirely or simply substitute a default scope in case none is given. Redirection
    /// urls should be matched verbatim, not partially.
    fn bound_redirect<'a>(&'a self, bound: ClientUrl) -> Result<BoundClient<'a>, RegistrarError>;

    /// Look up a client id.
    fn client(&self, client_id: &str) -> Option<&Client>;
}

// ---------------------------------------------------------------------------------------------
// The in-memory registrar
// ---------------------------------------------------------------------------------------------

/// A very simple, in-memory hash map of client ids to Client entries.
pub struct ClientMap {
    clients: StringHashMap<Client>,
}

impl View for ClientMap {
    type V = Map<Seq<char>, ClientModel>;

    closed spec fn view(&self) -> Map<Seq<char>, ClientModel> {
        self.clients@.map_values(|c: Client| c@)
    }
}

/// Every client is stored under its own id.
pub open spec fn keyed_by_id(clients: Map<Seq<char>, ClientModel>) -> bool {
    forall|id: Seq<char>| #[trigger] clients.contains_key(id) ==> clients[id].client_id == id
}

impl ClientMap {
    #[verifier::type_invariant]
    closed spec fn stored_under_own_id(self) -> bool {
        keyed_by_id(self@)
    }

    /// Create an empty map without any clients in it.
    pub fn new() -> (r: ClientMap)
        ensures
            r@ == Map::<Seq<char>, ClientModel>::empty(),
    {
        let r = ClientMap { clients: StringHashMap::new() };
        assert(r@ =~= Map::<Seq<char>, ClientModel>::empty());
        r
    }

    /// Insert or update the client record.
    pub fn register_client(&mut self, client: Client)
        ensures
            final(self)@ == old(self)@.insert(client@.client_id, client@),
    {
        proof { use_type_invariant(&*self); }
        let ghost before = self@;
        let mut clients = StringHashMap::new();
        std::mem::swap(&mut clients, &mut self.clients);
        let id = client.client_id.clone();
        let ghost model = client@;
        clients.insert(id, client);
        assert(clients@.map_values(|c: Client| c@) =~= before.insert(model.client_id, model));
        self.clients = clients;
    }
}

impl Registrar for ClientMap {
    fn bound_redirect<'a>(&'a self, bound: ClientUrl) -> (r: Result<BoundClient<'a>, RegistrarError>)
        ensures
            match r {
                Ok(b) => bind_redirect(self@, bound.client_id@, view_redirect(bound.redirect_uri)) == Ok::<BoundModel, RegistrarError>(b@),
                Err(e) => bind_redirect(self@, bound.client_id@, view_redirect(bound.redirect_uri)) == Err::<BoundModel, RegistrarError>(e),
            },
            keyed_by_id(self@),
    {
        proof { use_type_invariant(self); }
        let client = match self.clients.get(bound.client_id.as_str()) {
            None => return Err(RegistrarError::Unregistered),
            Some(stored) => stored,
        };

        // Perform exact matching as motivated in the rfc
        match &bound.redirect_uri {
            None => {},
            Some(url) => {
                if !url.matches(&client.redirect_uri) {
                    return Err(RegistrarError::MismatchedRedirect);
                }
            },
        }

        let redirect_uri = match bound.redirect_uri {
            Some(url) => url,
            None => client.redirect_uri.clone(),
        };
        Ok(BoundClient { client_id: bound.client_id, redirect_uri, client })
    }

    fn client(&self, client_id: &str) -> (r: Option<&Client>)
        ensures
            match r {
                Some(c) => self@.contains_key(client_id@) && c@ == self@[client_id@],
                None => !self@.contains_key(client_id@),
            },
            keyed_by_id(self@),
    {
        proof { use_type_invariant(self); }
        self.clients.get(client_id)
    }
}

} // verus!
