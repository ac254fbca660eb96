use nodex::didcomm::{
    AttachmentInfo, DIDCommEncryptedService, KeyMaterial, MetadataAttachment, VerifiedContainer,
    KEY_LENGTH, METADATA_FORMAT, METADATA_LINK,
};
use nodex::errors::UNiDError;
use nodex::sidetree::{DIDDocument, DidPublicKey, KeyPairSecp256K1};

fn public_key(id: &str) -> DidPublicKey {
    DidPublicKey {
        id: id.to_string(),
        controller: "did:unid:test:controller".to_string(),
        type_: "EcdsaSecp256k1VerificationKey2019".to_string(),
        public_key_jwk: KeyPairSecp256K1 {
            kty: "EC".to_string(),
            crv: "secp256k1".to_string(),
            x: "x".to_string(),
            y: "y".to_string(),
            d: None,
            kid: None,
        },
    }
}

fn document(keys: Option<Vec<DidPublicKey>>) -> DIDDocument {
    DIDDocument { id: "did:unid:test:subject".to_string(), public_key: keys, service: None, authentication: None }
}

fn attachment(format: Option<&str>, json: Option<&str>) -> AttachmentInfo {
    AttachmentInfo { format: format.map(str::to_string), json: json.map(str::to_string) }
}

fn bytes_of(hex: &str) -> Vec<u8> {
    (0..hex.len() / 2).map(|i| u8::from_str_radix(&hex[2 * i..2 * i + 2], 16).unwrap()).collect()
}

#[test]
fn recipient_key_is_the_single_key_of_the_document() {
    assert_eq!(
        DIDCommEncryptedService::recipient_key(&document(Some(vec![public_key("#signingKey")]))),
        Ok(public_key("#signingKey"))
    );
}

#[test]
fn recipient_key_refuses_any_other_number_of_keys() {
    assert_eq!(DIDCommEncryptedService::recipient_key(&document(None)), Err(UNiDError {}));
    assert_eq!(DIDCommEncryptedService::recipient_key(&document(Some(vec![]))), Err(UNiDError {}));
    assert_eq!(
        DIDCommEncryptedService::recipient_key(&document(Some(vec![public_key("a"), public_key("b")]))),
        Err(UNiDError {})
    );
}

#[test]
fn key_material_follows_the_published_x25519_vector() {
    let seed = bytes_of("77076d0a7318a57d3c16c17251b26645df4c2f87ebc0992ab177fba51db92c2a");
    let material = DIDCommEncryptedService::key_material(&seed).unwrap();
    assert_eq!(
        material.secret.to_vec(),
        bytes_of("70076d0a7318a57d3c16c17251b26645df4c2f87ebc0992ab177fba51db92c6a")
    );
    assert_eq!(
        material.public.to_vec(),
        bytes_of("8520f0098930a754748b7ddcb43ef75a0dbf3a0d26381af4eba4a98eaa9b4e6a")
    );
}

#[test]
fn key_material_reads_the_first_32_bytes_only() {
    let seed = bytes_of("5dab087e624a8a4b79e17f8b83800ee66f3bb1292618b6fd1c2f8b27ff88e0eb");
    let mut longer = seed.clone();
    longer.extend_from_slice(&[0xff, 0x00, 0x55]);
    let material = DIDCommEncryptedService::key_material(&longer).unwrap();
    assert_eq!(material, DIDCommEncryptedService::key_material(&seed).unwrap());
    assert_eq!(
        material.public.to_vec(),
        bytes_of("de9edb7d7b7dc1b4d35b61c2ece435373f8343c85b78674dadfc7e146f882b4f")
    );
    assert_eq!(material.secret[0], 0x58);
    assert_eq!(material.secret[31], 0x6b);
    assert_eq!(material.secret[1..31], seed[1..31]);
}

#[test]
fn key_material_clamps_the_seed() {
    let material = DIDCommEncryptedService::key_material(&vec![0xff; 32]).unwrap();
    assert_eq!(material.secret[0], 0xf8);
    assert_eq!(material.secret[31], 0x7f);
    assert_eq!(material.secret[1..31], [0xff; 30]);
    let material: KeyMaterial = DIDCommEncryptedService::key_material(&vec![0x00; 32]).unwrap();
    assert_eq!(material.secret[0], 0x00);
    assert_eq!(material.secret[31], 0x40);
}

#[test]
fn key_material_refuses_a_short_secret() {
    assert_eq!(DIDCommEncryptedService::key_material(&vec![1; 31]), Err(UNiDError {}));
    assert_eq!(DIDCommEncryptedService::key_material(&vec![]), Err(UNiDError {}));
    assert_eq!(KEY_LENGTH, 32);
}

#[test]
fn message_without_metadata_has_no_attachment() {
    assert_eq!(DIDCommEncryptedService::metadata_attachment(None, Some("cid".to_string())), Ok(None));
    assert_eq!(DIDCommEncryptedService::metadata_attachment(None, None), Ok(None));
}

#[test]
fn metadata_travels_in_a_marked_attachment() {
    assert_eq!(
        DIDCommEncryptedService::metadata_attachment(Some("{\"k\":1}".to_string()), Some("cid".to_string())),
        Ok(Some(MetadataAttachment {
            id: "cid".to_string(),
            format: "metadata".to_string(),
            link: "https://did.getunid.io".to_string(),
            json: "{\"k\":1}".to_string(),
        }))
    );
    assert_eq!(METADATA_FORMAT, "metadata");
    assert_eq!(METADATA_LINK, "https://did.getunid.io");
}

#[test]
fn metadata_without_identifier_fails_the_message() {
    assert_eq!(
        DIDCommEncryptedService::metadata_attachment(Some("{}".to_string()), None),
        Err(UNiDError {})
    );
}

#[test]
fn find_metadata_picks_the_first_marked_attachment() {
    let attachments = vec![
        attachment(None, Some("0")),
        attachment(Some("other"), Some("1")),
        attachment(Some("metadata"), Some("2")),
        attachment(Some("metadata"), Some("3")),
    ];
    assert_eq!(DIDCommEncryptedService::find_metadata(&attachments), Some(2));
    assert_eq!(
        DIDCommEncryptedService::find_metadata(&vec![attachment(None, Some("0")), attachment(Some("other"), Some("1"))]),
        None
    );
    assert_eq!(DIDCommEncryptedService::find_metadata(&vec![]), None);
    assert_eq!(
        DIDCommEncryptedService::find_metadata(&vec![attachment(Some("Metadata"), None), attachment(Some("metadata "), None)]),
        None
    );
}

#[test]
fn opened_message_yields_body_and_metadata() {
    let attachments = vec![attachment(Some("other"), None), attachment(Some("metadata"), Some("{\"n\":[1,2]}"))];
    let container = DIDCommEncryptedService::verified_container("{\"hello\":\"world\"}", &attachments).unwrap();
    let mut body = serde_json::Map::new();
    body.insert("hello".to_string(), serde_json::Value::String("world".to_string()));
    let mut metadata = serde_json::Map::new();
    metadata.insert(
        "n".to_string(),
        serde_json::Value::Array(vec![serde_json::Value::from(1), serde_json::Value::from(2)]),
    );
    assert_eq!(
        container,
        VerifiedContainer {
            message: serde_json::Value::Object(body),
            metadata: Some(serde_json::Value::Object(metadata)),
        }
    );
}

#[test]
fn opened_message_without_marked_attachment_has_no_metadata() {
    let container =
        DIDCommEncryptedService::verified_container("[true]", &vec![attachment(Some("other"), Some("{"))]).unwrap();
    assert_eq!(
        container,
        VerifiedContainer { message: serde_json::Value::Array(vec![serde_json::Value::Bool(true)]), metadata: None }
    );
}

#[test]
fn opened_message_with_broken_parts_is_refused() {
    let good = vec![attachment(Some("metadata"), Some("{}"))];
    assert_eq!(DIDCommEncryptedService::verified_container("{\"hello\":", &good), Err(UNiDError {}));
    assert_eq!(DIDCommEncryptedService::verified_container("", &vec![]), Err(UNiDError {}));
    assert_eq!(
        DIDCommEncryptedService::verified_container("{}", &vec![attachment(Some("metadata"), None)]),
        Err(UNiDError {})
    );
    assert_eq!(
        DIDCommEncryptedService::verified_container("{}", &vec![attachment(Some("metadata"), Some("not json"))]),
        Err(UNiDError {})
    );
    assert_eq!(
        DIDCommEncryptedService::verified_container(
            "{}",
            &vec![attachment(Some("metadata"), Some("oops")), attachment(Some("metadata"), Some("{}"))]
        ),
        Err(UNiDError {})
    );
}
