use oxide_auth::redirect::{InvalidUrl, RedirectUri};
use oxide_auth::registrar::{
    AuthenticationError, Client, ClientMap, ClientUrl, Registrar, RegistrarError, SHA256Policy,
};
use oxide_auth::scope::Scope;

fn url(text: &str) -> RedirectUri {
    RedirectUri::parse(text).unwrap()
}

/// A test suite for registrars which support simple registrations of arbitrary clients
fn simple_test_suite<Reg, RegFn>(registrar: &mut Reg, register: RegFn)
where
    Reg: Registrar,
    RegFn: Fn(&mut Reg, Client),
{
    let public_id = "PrivateClientId";
    let client_url = "https://example.com";

    let private_id = "PublicClientId";
    let private_passphrase = b"WOJJCcS8WyS2aGmJK6ZADg==";

    let public_client = Client::public(public_id, url(client_url), Scope::new("default"));

    register(registrar, public_client);

    {
        let recovered_client = registrar.client(public_id).expect("Registered client not available");
        recovered_client
            .check_authentication(None)
            .expect("Authorization of public client has changed");
    }

    let private_client =
        Client::confidential(private_id, url(client_url), Scope::new("default"), private_passphrase);

    register(registrar, private_client);

    {
        let recovered_client = registrar.client(private_id).expect("Registered client not available");
        recovered_client
            .check_authentication(Some(private_passphrase))
            .expect("Authorization of private client has changed");
    }
}

#[test]
fn public_client() {
    let client = Client::public("ClientId", url("https://example.com"), Scope::new("default"));
    assert!(client.check_authentication(None).is_ok());
    assert!(client.check_authentication(Some(b"")).is_err());
}

#[test]
fn confidential_client() {
    let pass = b"AB3fAj6GJpdxmEVeNCyPoA==";
    let client = Client::confidential("ClientId", url("https://example.com"), Scope::new("default"), pass);
    assert!(client.check_authentication(None).is_err());
    assert!(client.check_authentication(Some(pass)).is_ok());
    assert!(client.check_authentication(Some(b"not the passphrase")).is_err());
    assert!(client.check_authentication(Some(b"")).is_err());
}

#[test]
fn client_map() {
    let mut client_map = ClientMap::new();
    simple_test_suite(&mut client_map, ClientMap::register_client);
}

#[test]
fn url_is_held_as_its_serialization() {
    assert_eq!(url("https://example.com").as_str(), "https://example.com/");
    assert_eq!(url("HTTPS://Example.COM/a/../b").as_str(), "https://example.com/b");
}

#[test]
fn relative_url_is_refused() {
    assert_eq!(RedirectUri::parse("/endpoint").err(), Some(InvalidUrl));
    assert_eq!(RedirectUri::parse("not a url").err(), Some(InvalidUrl));
}

#[test]
fn url_matching_is_exact() {
    assert!(url("https://example.com").matches(&url("https://example.com/")));
    assert!(!url("https://example.com/").matches(&url("https://example.com/?a=b")));
}

#[test]
fn passdata_is_the_salted_sha256() {
    // SHA-256 of "abc"
    let expected: [u8; 32] = [
        0xba, 0x78, 0x16, 0xbf, 0x8f, 0x01, 0xcf, 0xea, 0x41, 0x41, 0x40, 0xde, 0x5d, 0xae, 0x22, 0x23,
        0xb0, 0x03, 0x61, 0xa3, 0x96, 0x17, 0x7a, 0x9c, 0xb4, 0x10, 0xff, 0x61, 0xf2, 0x00, 0x15, 0xad,
    ];
    assert_eq!(SHA256Policy.store("", b"abc"), expected.to_vec());
    assert_eq!(SHA256Policy.store("a", b"bc"), expected.to_vec());
    assert_eq!(SHA256Policy.store("ab", b"c"), expected.to_vec());
    assert_ne!(SHA256Policy.store("abc", b"abc"), expected.to_vec());
}

#[test]
fn policy_check_compares_with_stored() {
    let stored = SHA256Policy.store("client", b"secret");
    assert_eq!(stored.len(), 32);
    assert!(SHA256Policy.check("client", b"secret", &stored).is_ok());
    assert!(SHA256Policy.check("client", b"Secret", &stored).is_err());
    assert!(SHA256Policy.check("other", b"secret", &stored).is_err());
    assert!(SHA256Policy.check("client", b"secret", &stored[..31]).is_err());
}

#[test]
fn passphrase_is_salted_with_client_id() {
    let client = Client::confidential("alice", url("https://example.com"), Scope::new("default"), b"pw");
    assert_eq!(client.check_authentication(Some(b"pw")).err(), None);
    let other = Client::confidential("bob", url("https://example.com"), Scope::new("default"), b"pw");
    assert!(other.check_authentication(Some(b"pw")).is_ok());
    assert_eq!(client.check_authentication(Some(b"pW")).err(), Some(AuthenticationError));
}

#[test]
fn unknown_client_is_unregistered() {
    let map = ClientMap::new();
    let request = ClientUrl { client_id: "nobody".to_string(), redirect_uri: None };
    assert_eq!(map.bound_redirect(request).err(), Some(RegistrarError::Unregistered));
    assert!(map.client("nobody").is_none());
}

#[test]
fn redirect_must_match_exactly() {
    let mut map = ClientMap::new();
    map.register_client(Client::public("app", url("https://example.com/cb"), Scope::new("read")));

    let wrong = ClientUrl { client_id: "app".to_string(), redirect_uri: Some(url("https://example.com/cb?x=1")) };
    assert_eq!(map.bound_redirect(wrong).err(), Some(RegistrarError::MismatchedRedirect));

    let exact = ClientUrl { client_id: "app".to_string(), redirect_uri: Some(url("https://example.com/cb")) };
    let bound = map.bound_redirect(exact).ok().unwrap();
    assert_eq!(bound.client_id, "app");
    assert_eq!(bound.redirect_uri.as_str(), "https://example.com/cb");
}

#[test]
fn missing_redirect_is_the_registered_one() {
    let mut map = ClientMap::new();
    map.register_client(Client::public("app", url("https://example.com/cb"), Scope::new("read")));
    let request = ClientUrl { client_id: "app".to_string(), redirect_uri: None };
    let bound = map.bound_redirect(request).ok().unwrap();
    assert_eq!(bound.redirect_uri.as_str(), "https://example.com/cb");
    assert!(bound.client.check_authentication(None).is_ok());
}

#[test]
fn negotiation_chooses_the_default_scope() {
    let mut map = ClientMap::new();
    map.register_client(Client::public("app", url("https://example.com/cb"), Scope::new("read")));
    let request = ClientUrl { client_id: "app".to_string(), redirect_uri: None };
    let bound = map.bound_redirect(request).ok().unwrap();
    let grant = bound.negotiate(Some(Scope::new("write admin")));
    assert_eq!(grant.client_id, "app");
    assert_eq!(grant.redirect_uri.as_str(), "https://example.com/cb");
    assert_eq!(grant.scope.as_str(), "read");
    let copy = grant.clone();
    assert_eq!(copy.scope.as_str(), "read");
}

#[test]
fn registering_again_replaces_the_record() {
    let mut map = ClientMap::new();
    map.register_client(Client::public("app", url("https://one.example/"), Scope::new("read")));
    map.register_client(Client::confidential("app", url("https://two.example/"), Scope::new("read"), b"pw"));
    let client = map.client("app").unwrap();
    assert!(client.check_authentication(None).is_err());
    assert!(client.check_authentication(Some(b"pw")).is_ok());
    let request = ClientUrl { client_id: "app".to_string(), redirect_uri: None };
    assert_eq!(map.bound_redirect(request).ok().unwrap().redirect_uri.as_str(), "https://two.example/");
}

#[test]
fn lookup_finds_the_last_registration_under_an_id() {
    let mut map = ClientMap::new();
    map.register_client(Client::public("a", url("https://one.example/"), Scope::new("x")));
    map.register_client(Client::public("b", url("https://two.example/"), Scope::new("x")));
    map.register_client(Client::public("a", url("https://three.example/"), Scope::new("x")));
    let find = |id: &str| {
        map.bound_redirect(ClientUrl { client_id: id.to_string(), redirect_uri: None })
            .ok()
            .map(|b| b.redirect_uri.as_str().to_string())
    };
    assert_eq!(find("a"), Some("https://three.example/".to_string()));
    assert_eq!(find("b"), Some("https://two.example/".to_string()));
    assert_eq!(find("A"), None);
    assert!(map.client("c").is_none());
}

#[test]
fn stored_form_has_digest_length() {
    let client = Client::confidential("id", url("https://example.com"), Scope::new("x"), b"");
    assert!(client.check_authentication(Some(b"")).is_ok());
    let stored = SHA256Policy.store("id", b"a much longer passphrase than thirty-two bytes in all");
    assert_eq!(stored.len(), 32);
    assert!(SHA256Policy.check("id", b"x", &[0u8; 33]).is_err());
}
