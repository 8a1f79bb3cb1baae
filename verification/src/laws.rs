//! Properties that relate the operations of the registrar and of clients.

use vstd::prelude::*;
use vstd::utf8::encode_utf8;
use crate::digest::sha256_digest;
use crate::registrar::{
    authenticates, bind_redirect, keyed_by_id, passdata_of, salted_passphrase, BoundModel,
    ClientModel, ClientTypeModel, RegistrarError,
};

verus! {

/// A confidential client authenticates with the passphrase it was created with
/// (`Client::confidential`, then `Client::check_authentication`).
pub proof fn confidential_client_accepts_its_passphrase(
    client_id: Seq<char>,
    redirect_uri: Seq<char>,
    default_scope: Seq<char>,
    passphrase: Seq<u8>,
)
    ensures
        authenticates(
            ClientModel {
                client_id,
                redirect_uri,
                default_scope,
                client_type: ClientTypeModel::Confidential {
                    passdata: passdata_of(client_id, passphrase),
                },
            },
            Some(passphrase),
        ),
{
}

/// The bytes hashed for a passphrase are the client id's UTF-8 bytes followed by every byte of
/// the passphrase, each at its own offset and unchanged.
pub proof fn salted_input_keeps_every_byte(client_id: Seq<char>, passphrase: Seq<u8>)
    ensures
        salted_passphrase(client_id, passphrase).len() == encode_utf8(client_id).len() + passphrase.len(),
        forall|i: int| 0 <= i < encode_utf8(client_id).len()
            ==> #[trigger] salted_passphrase(client_id, passphrase)[i] == encode_utf8(client_id)[i],
        forall|i: int| 0 <= i < passphrase.len()
            ==> salted_passphrase(client_id, passphrase)[encode_utf8(client_id).len() + i] == #[trigger] passphrase[i],
{
}

/// For one client id, two different passphrases are never hashed from the same bytes.
pub proof fn salted_input_tells_passphrases_apart(client_id: Seq<char>, passphrase_a: Seq<u8>, passphrase_b: Seq<u8>)
    requires
        passphrase_a != passphrase_b,
    ensures
        salted_passphrase(client_id, passphrase_a) != salted_passphrase(client_id, passphrase_b),
{
    let n = encode_utf8(client_id).len() as int;
    salted_input_keeps_every_byte(client_id, passphrase_a);
    salted_input_keeps_every_byte(client_id, passphrase_b);
    if salted_passphrase(client_id, passphrase_a) == salted_passphrase(client_id, passphrase_b) {
        assert forall|i: int| 0 <= i < passphrase_a.len() implies passphrase_a[i] == passphrase_b[i] by {
            assert(salted_passphrase(client_id, passphrase_a)[n + i] == passphrase_a[i]);
            assert(salted_passphrase(client_id, passphrase_b)[n + i] == passphrase_b[i]);
        }
        assert(passphrase_a =~= passphrase_b);
    }
}

/// What a confidential client stores of its passphrase (`SHA256Policy::store`,
/// `Client::confidential`) is the SHA-256 of exactly the client id's UTF-8 bytes followed by the
/// passphrase, nothing dropped, added or changed.
pub proof fn stored_form_is_sha256_of_id_then_passphrase(client_id: Seq<char>, passphrase: Seq<u8>)
    ensures
        passdata_of(client_id, passphrase) == sha256_digest(encode_utf8(client_id) + passphrase),
{
}

/// `Client::check_authentication` succeeds for a public client exactly when no passphrase is
/// given, and for a confidential client exactly when the SHA-256 of the client id's bytes followed
/// by the given passphrase itself equals the stored passdata; every other pairing fails.
pub proof fn authentication_compares_the_given_passphrase(client: ClientModel, attempt: Option<Seq<u8>>)
    ensures
        match (attempt, client.client_type) {
            (None, ClientTypeModel::Public) => authenticates(client, attempt),
            (Some(p), ClientTypeModel::Confidential { passdata }) =>
                authenticates(client, attempt) <==> sha256_digest(encode_utf8(client.client_id) + p) == passdata,
            _ => !authenticates(client, attempt),
        },
{
}

/// A client created with passphrase `p` (`Client::confidential`) accepts an attempt `q`
/// (`Client::check_authentication`) exactly when the SHA-256 of the id's bytes followed by `q`
/// equals that of the id's bytes followed by `p`: a passphrase whose salted digest differs, such
/// as a longer one that merely starts with `p`, is refused.
pub proof fn created_client_accepts_exactly_matching_digests(
    client_id: Seq<char>,
    redirect_uri: Seq<char>,
    default_scope: Seq<char>,
    passphrase: Seq<u8>,
    attempt: Seq<u8>,
)
    ensures
        authenticates(
            ClientModel {
                client_id,
                redirect_uri,
                default_scope,
                client_type: ClientTypeModel::Confidential {
                    passdata: sha256_digest(encode_utf8(client_id) + passphrase),
                },
            },
            Some(attempt),
        ) <==> sha256_digest(encode_utf8(client_id) + attempt) == sha256_digest(encode_utf8(client_id) + passphrase),
{
}

/// A confidential client never authenticates without a passphrase.
pub proof fn confidential_client_needs_a_passphrase(client: ClientModel)
    requires
        client.client_type is Confidential,
    ensures
        !authenticates(client, None),
{
}

/// A public client authenticates without a passphrase, and with none that is given.
pub proof fn public_client_takes_no_passphrase(client: ClientModel, passphrase: Seq<u8>)
    requires
        client.client_type is Public,
    ensures
        authenticates(client, None),
        !authenticates(client, Some(passphrase)),
{
}

/// After `register_client`, `client` finds the registered record under its id, every other
/// record is unchanged, and every record is still stored under its own id.
pub proof fn registered_client_is_found(
    clients: Map<Seq<char>, ClientModel>,
    client: ClientModel,
    other_id: Seq<char>,
)
    requires
        keyed_by_id(clients),
    ensures
        clients.insert(client.client_id, client).contains_key(client.client_id),
        clients.insert(client.client_id, client)[client.client_id] == client,
        other_id != client.client_id ==> (
            clients.insert(client.client_id, client).contains_key(other_id)
                == clients.contains_key(other_id)
            && clients.insert(client.client_id, client)[other_id] == clients[other_id]),
        keyed_by_id(clients.insert(client.client_id, client)),
{
}

/// After `register_client`, `bound_redirect` binds the client to its registered url when the
/// request names no url or exactly that url, and refuses any other url.
pub proof fn registered_client_binds_to_its_url(
    clients: Map<Seq<char>, ClientModel>,
    client: ClientModel,
    requested: Seq<char>,
)
    ensures
        bind_redirect(clients.insert(client.client_id, client), client.client_id, None)
            == Ok::<BoundModel, RegistrarError>(BoundModel {
                client_id: client.client_id,
                redirect_uri: client.redirect_uri,
                client,
            }),
        bind_redirect(clients.insert(client.client_id, client), client.client_id, Some(client.redirect_uri))
            == Ok::<BoundModel, RegistrarError>(BoundModel {
                client_id: client.client_id,
                redirect_uri: client.redirect_uri,
                client,
            }),
        requested != client.redirect_uri ==> bind_redirect(
            clients.insert(client.client_id, client),
            client.client_id,
            Some(requested),
        ) == Err::<BoundModel, RegistrarError>(RegistrarError::MismatchedRedirect),
{
}

/// A client that was never registered is refused as unregistered, whatever url it names.
pub proof fn unknown_client_is_unregistered(
    clients: Map<Seq<char>, ClientModel>,
    client_id: Seq<char>,
    redirect_uri: Option<Seq<char>>,
)
    requires
        !clients.contains_key(client_id),
    ensures
        bind_redirect(clients, client_id, redirect_uri)
            == Err::<BoundModel, RegistrarError>(RegistrarError::Unregistered),
{
}

/// Whatever a request names, a successful binding carries the registered client and its
/// registered url: redirection urls are matched verbatim, never partially.
pub proof fn binding_uses_the_registered_url(
    clients: Map<Seq<char>, ClientModel>,
    client_id: Seq<char>,
    redirect_uri: Option<Seq<char>>,
)
    ensures
        bind_redirect(clients, client_id, redirect_uri) matches Ok(bound) ==> {
            &&& clients.contains_key(client_id)
            &&& bound.client_id == client_id
            &&& bound.client == clients[client_id]
            &&& bound.redirect_uri == clients[client_id].redirect_uri
        },
        bind_redirect(clients, client_id, redirect_uri) is Err ==> {
            ||| !clients.contains_key(client_id)
            ||| redirect_uri matches Some(url) && url != clients[client_id].redirect_uri
        },
{
}

/// The stored form depends only on the client id's bytes followed by the passphrase, taken as
/// one unseparated sequence (`SHA256Policy::store`).
pub proof fn stored_form_depends_on_the_concatenation(
    id_a: Seq<char>,
    passphrase_a: Seq<u8>,
    id_b: Seq<char>,
    passphrase_b: Seq<u8>,
)
    requires
        encode_utf8(id_a) + passphrase_a == encode_utf8(id_b) + passphrase_b,
    ensures
        passdata_of(id_a, passphrase_a) == passdata_of(id_b, passphrase_b),
{
}

/// A confidential client keeps its passphrase only through the salted digest: two clients
/// created from passphrases with equal salted digests are the same client and answer every
/// authentication attempt alike (`Client::confidential`, then `Client::check_authentication`).
pub proof fn equal_digests_make_equal_clients(
    client_id: Seq<char>,
    redirect_uri: Seq<char>,
    default_scope: Seq<char>,
    passphrase_a: Seq<u8>,
    passphrase_b: Seq<u8>,
    attempt: Option<Seq<u8>>,
)
    requires
        passdata_of(client_id, passphrase_a) == passdata_of(client_id, passphrase_b),
    ensures
        ({
            let a = ClientModel {
                client_id,
                redirect_uri,
                default_scope,
                client_type: ClientTypeModel::Confidential {
                    passdata: passdata_of(client_id, passphrase_a),
                },
            };
            let b = ClientModel {
                client_id,
                redirect_uri,
                default_scope,
                client_type: ClientTypeModel::Confidential {
                    passdata: passdata_of(client_id, passphrase_b),
                },
            };
            &&& a == b
            &&& authenticates(a, attempt) == authenticates(b, attempt)
        }),
{
}

/// The clients that `ClientMap::new` followed by `register_client` of each of `clients`, in
/// order, holds.
pub open spec fn registered_in_order(clients: Seq<ClientModel>) -> Map<Seq<char>, ClientModel>
    decreases clients.len(),
{
    if clients.len() == 0 {
        Map::empty()
    } else {
        registered_in_order(clients.drop_last()).insert(clients.last().client_id, clients.last())
    }
}

/// Every client registered in order is stored under its own id.
proof fn registered_in_order_is_keyed(clients: Seq<ClientModel>)
    ensures
        keyed_by_id(registered_in_order(clients)),
    decreases clients.len(),
{
    if clients.len() > 0 {
        registered_in_order_is_keyed(clients.drop_last());
    }
}

/// An id is registered exactly when some registration named it.
proof fn registered_in_order_contains(clients: Seq<ClientModel>, client_id: Seq<char>)
    ensures
        registered_in_order(clients).contains_key(client_id)
            <==> exists|i: int| 0 <= i < clients.len() && #[trigger] clients[i].client_id == client_id,
    decreases clients.len(),
{
    if clients.len() > 0 {
        let earlier = clients.drop_last();
        registered_in_order_contains(earlier, client_id);
        if registered_in_order(earlier).contains_key(client_id) {
            let i = choose|i: int| 0 <= i < earlier.len() && #[trigger] earlier[i].client_id == client_id;
            assert(clients[i].client_id == client_id);
        }
        if exists|i: int| 0 <= i < clients.len() && #[trigger] clients[i].client_id == client_id {
            let i = choose|i: int| 0 <= i < clients.len() && #[trigger] clients[i].client_id == client_id;
            if i < clients.len() - 1 {
                assert(earlier[i].client_id == client_id);
            }
        }
    }
}

/// The registration at `i`, the last to name `client_id`, is the one found.
proof fn registered_in_order_last(clients: Seq<ClientModel>, client_id: Seq<char>, i: int)
    requires
        0 <= i < clients.len(),
        clients[i].client_id == client_id,
        forall|j: int| i < j < clients.len() ==> #[trigger] clients[j].client_id != client_id,
    ensures
        registered_in_order(clients).contains_key(client_id),
        registered_in_order(clients)[client_id] == clients[i],
    decreases clients.len(),
{
    let earlier = clients.drop_last();
    if i < clients.len() - 1 {
        assert(clients[clients.len() - 1].client_id != client_id);
        assert forall|j: int| i < j < earlier.len() implies #[trigger] earlier[j].client_id != client_id by {
            assert(clients[j].client_id != client_id);
        }
        registered_in_order_last(earlier, client_id, i);
    }
}

/// After a sequence of registrations into a new map, looking up an id finds the client
/// registered last under exactly that id, and nothing where no client had that id; every
/// client is stored under its own id.
pub proof fn lookup_finds_the_last_registration(clients: Seq<ClientModel>, client_id: Seq<char>)
    ensures
        registered_in_order(clients).contains_key(client_id)
            <==> exists|i: int| 0 <= i < clients.len() && #[trigger] clients[i].client_id == client_id,
        forall|i: int|
            0 <= i < clients.len() && #[trigger] clients[i].client_id == client_id
                && (forall|j: int| i < j < clients.len() ==> clients[j].client_id != client_id)
            ==> registered_in_order(clients)[client_id] == clients[i],
        keyed_by_id(registered_in_order(clients)),
{
    registered_in_order_is_keyed(clients);
    registered_in_order_contains(clients, client_id);
    assert forall|i: int|
        0 <= i < clients.len() && #[trigger] clients[i].client_id == client_id
            && (forall|j: int| i < j < clients.len() ==> clients[j].client_id != client_id)
    implies registered_in_order(clients)[client_id] == clients[i] by {
        registered_in_order_last(clients, client_id, i);
    }
}

} // verus!
