//! Key ops: which key a call asks for, what it needs to ask for it, and
//! which resources stand for the keys.

use vstd::prelude::*;
use crate::error::{fails_with, generic_error, message_with, type_error, ErrorClass, OpError};
use crate::extensions::{declares, Extension, OpPair, SourcePair};
use crate::op_state::{same_but_table, table_full_message, OpState};
use crate::ops::{
    invalid_args, spec_started, started, NativeWork, Op, OpArgs, OpBuf, OpFn, OpHandler, PromiseId,
};
use crate::resources::{spec_get, Resource, ResourceKind};

verus! {

/// Why a key op refuses a call.
#[derive(Debug)]
pub enum WebCryptoError {
    MissingArgument(String),
    Unsupported,
}

impl WebCryptoError {
    pub open spec fn spec_message(&self) -> Seq<char> {
        match self {
            WebCryptoError::MissingArgument(s) => "Missing argument "@ + s@,
            WebCryptoError::Unsupported => "Unsupported algorithm"@,
        }
    }

    /// The error in words.
    pub fn message(&self) -> (s: String)
        ensures
            s@ == self.spec_message(),
    {
        match self {
            WebCryptoError::MissingArgument(s) => message_with("Missing argument ", s.as_str()),
            WebCryptoError::Unsupported => String::from_str("Unsupported algorithm"),
        }
    }

    /// The error as an op reports it.
    pub fn into_op_error(self) -> (e: OpError)
        ensures
            e.is(ErrorClass::Error, self.spec_message()),
    {
        generic_error(self.message().as_str())
    }
}

#[derive(Clone, Copy, Debug, PartialEq, Eq, Structural)]
pub enum Algorithm {
    RsassaPkcs1v15,
    RsaPss,
    RsaOaep,
    Ecdsa,
    Ecdh,
    AesCtr,
    AesCbc,
    AesGcm,
    AesKw,
    Hmac,
}

#[derive(Clone, Copy, Debug, PartialEq, Eq, Structural)]
pub enum WebCryptoHash {
    Sha1,
    Sha256,
    Sha384,
    Sha512,
}

#[derive(Clone, Copy, Debug, PartialEq, Eq, Structural)]
pub enum WebCryptoNamedCurve {
    P256,
    P384,
    P521,
}

#[derive(Clone, Copy, Debug, PartialEq, Eq, Structural)]
pub enum KeyUsage {
    Encrypt,
    Decrypt,
    Sign,
    Verify,
    DeriveKey,
    DeriveBits,
    WrapKey,
    UnwrapKey,
}

#[derive(Clone, Copy, Debug, PartialEq, Eq, Structural)]
pub enum KeyType {
    Public,
    Private,
    Secret,
}

/// A key as the caller sees it. A generated key has no usages yet.
#[derive(Clone, Copy, Debug, PartialEq, Eq, Structural)]
pub struct WebCryptoKey {
    pub key_type: KeyType,
    pub extractable: bool,
    pub algorithm: Algorithm,
}

#[derive(Clone, Copy, Debug, PartialEq, Eq, Structural)]
pub struct WebCryptoKeyPair {
    pub public_key: WebCryptoKey,
    pub private_key: WebCryptoKey,
}

#[derive(Clone, Copy, Debug, PartialEq, Eq, Structural)]
pub struct WebCryptoAlgorithmArg {
    pub name: Algorithm,
    pub public_exponent: Option<u32>,
    pub modulus_length: Option<u32>,
    pub hash: Option<WebCryptoHash>,
    pub length: Option<u32>,
    pub named_curve: Option<WebCryptoNamedCurve>,
}

#[derive(Debug)]
pub struct WebCryptoGenerateKeyArg {
    pub algorithm: WebCryptoAlgorithmArg,
    pub extractable: bool,
    pub key_usages: Vec<KeyUsage>,
}

#[derive(Clone, Copy, Debug, PartialEq, Eq, Structural)]
pub struct WebCryptoSignArg {
    pub rid: u32,
    pub algorithm: Algorithm,
    pub salt_length: Option<u32>,
    pub hash: Option<WebCryptoHash>,
}

/// The key that a generate call asks the embedder for.
#[derive(Clone, Copy, Debug, PartialEq, Eq, Structural)]
pub enum KeyRequest {
    /// An RSA key pair with the given public exponent and modulus length.
    Rsa { exponent: u32, modulus_length: u32 },
    /// A key pair for key agreement on the given curve.
    Ecdh { curve: WebCryptoNamedCurve },
    /// A signing key on the given curve.
    Ecdsa { curve: WebCryptoNamedCurve },
    /// A key for message authentication with the given hash.
    Hmac { hash: WebCryptoHash },
}

/// A generate call after its checks: the key to generate, and what the
/// resources and the caller will be told about it.
#[derive(Clone, Copy, Debug, PartialEq, Eq, Structural)]
pub struct GenerateKey {
    pub request: KeyRequest,
    pub algorithm: Algorithm,
    pub extractable: bool,
    pub hash: Option<WebCryptoHash>,
}

/// How to sign.
#[derive(Clone, Copy, Debug, PartialEq, Eq, Structural)]
pub enum SignScheme {
    /// RSA with PKCS #1 v1.5 padding and no hash prefix.
    Pkcs1v15,
    /// RSA with PSS padding, a salt of the given length and the given
    /// hash.
    Pss { hash: WebCryptoHash, salt_len: u32 },
    Ecdsa,
    Hmac,
}

/// Key work that the embedder does for a suspended call.
#[derive(Clone, Copy, Debug, PartialEq, Eq, Structural)]
pub enum CryptoWork {
    /// Fill the buffer of the call with random bytes, from the seeded
    /// generator if there is one.
    RandomValues { seeded_rng: Option<u64> },
    GenerateKey(GenerateKey),
    /// Sign the buffer of the call with the key `key`.
    Sign { key: u64, scheme: SignScheme },
}

/// Key material that the embedder generated.
#[derive(Clone, Copy, Debug, PartialEq, Eq, Structural)]
pub enum Generated {
    Pair { private_key: u64, public_key: u64 },
    Single { key: u64 },
}

/// A generated key as the caller sees it.
#[allow(inconsistent_fields)]
#[derive(Clone, Copy, Debug, PartialEq, Eq, Structural)]
pub enum JSCryptoKey {
    Single { key: WebCryptoKey, rid: u32 },
    Pair { key: WebCryptoKeyPair, private_rid: u32, public_rid: u32 },
}

/// Says where the random bytes of the call come from: the seeded
/// generator of the session, if it has one.
pub fn op_crypto_get_random_values(state: &OpState) -> (work: CryptoWork)
    ensures
        work == (CryptoWork::RandomValues { seeded_rng: state.seeded_rng }),
{
    CryptoWork::RandomValues { seeded_rng: state.seeded_rng }
}

/// Whether keys on `curve` can be generated.
pub open spec fn spec_curve_supported(curve: WebCryptoNamedCurve) -> bool {
    curve != WebCryptoNamedCurve::P521
}

/// The argument that a generate call lacks, if it lacks one.
pub open spec fn spec_lacks(algorithm: WebCryptoAlgorithmArg) -> Option<Seq<char>> {
    match algorithm.name {
        Algorithm::RsassaPkcs1v15 | Algorithm::RsaPss | Algorithm::RsaOaep => if algorithm.public_exponent is None {
            Some("publicExponent"@)
        } else if algorithm.modulus_length is None {
            Some("modulusLength"@)
        } else {
            None
        },
        Algorithm::Ecdh | Algorithm::Ecdsa => if algorithm.named_curve is None {
            Some("namedCurve"@)
        } else {
            None
        },
        Algorithm::Hmac => if algorithm.hash is None {
            Some("hash"@)
        } else {
            None
        },
        _ => None,
    }
}

/// The key that a generate call asks for, if it lacks no argument and
/// the algorithm and the curve are supported.
pub open spec fn spec_key_request(algorithm: WebCryptoAlgorithmArg) -> Option<KeyRequest> {
    if spec_lacks(algorithm) is Some {
        None
    } else {
        match algorithm.name {
            Algorithm::RsassaPkcs1v15 | Algorithm::RsaPss | Algorithm::RsaOaep => Some(
                KeyRequest::Rsa {
                    exponent: algorithm.public_exponent->0,
                    modulus_length: algorithm.modulus_length->0,
                },
            ),
            Algorithm::Ecdh => if spec_curve_supported(algorithm.named_curve->0) {
                Some(KeyRequest::Ecdh { curve: algorithm.named_curve->0 })
            } else {
                None
            },
            Algorithm::Ecdsa => if spec_curve_supported(algorithm.named_curve->0) {
                Some(KeyRequest::Ecdsa { curve: algorithm.named_curve->0 })
            } else {
                None
            },
            Algorithm::Hmac => Some(KeyRequest::Hmac { hash: algorithm.hash->0 }),
            _ => None,
        }
    }
}

/// What checking a generate call yields: the error for the argument that
/// it lacks, or the error for an algorithm or curve that is not supported,
/// or the key to generate.
pub open spec fn key_request_post(algorithm: WebCryptoAlgorithmArg, r: Result<KeyRequest, WebCryptoError>) -> bool {
    match spec_lacks(algorithm) {
        Some(name) => r matches Err(WebCryptoError::MissingArgument(s)) && s@ == name,
        None => match spec_key_request(algorithm) {
            Some(request) => r == Ok::<KeyRequest, WebCryptoError>(request),
            None => r matches Err(WebCryptoError::Unsupported),
        },
    }
}

fn missing<T>(name: &str) -> (r: Result<T, WebCryptoError>)
    ensures
        r matches Err(WebCryptoError::MissingArgument(s)) && s@ == name@,
{
    Err(WebCryptoError::MissingArgument(String::from_str(name)))
}

fn supported_curve(curve: Option<WebCryptoNamedCurve>) -> (r: Result<WebCryptoNamedCurve, WebCryptoError>)
    ensures
        match curve {
            None => r matches Err(WebCryptoError::MissingArgument(s)) && s@ == "namedCurve"@,
            Some(c) => if spec_curve_supported(c) {
                r == Ok::<WebCryptoNamedCurve, WebCryptoError>(c)
            } else {
                r matches Err(WebCryptoError::Unsupported)
            },
        },
{
    match curve {
        None => missing("namedCurve"),
        Some(WebCryptoNamedCurve::P521) => Err(WebCryptoError::Unsupported),
        Some(c) => Ok(c),
    }
}

/// Checks the algorithm arguments of a generate call and says which key
/// it asks for.
pub fn key_request(algorithm: &WebCryptoAlgorithmArg) -> (r: Result<KeyRequest, WebCryptoError>)
    ensures
        key_request_post(*algorithm, r),
{
    match algorithm.name {
        Algorithm::RsassaPkcs1v15 | Algorithm::RsaPss | Algorithm::RsaOaep => {
            let exponent = match algorithm.public_exponent {
                Some(e) => e,
                None => {
                    return missing("publicExponent");
                },
            };
            let modulus_length = match algorithm.modulus_length {
                Some(m) => m,
                None => {
                    return missing("modulusLength");
                },
            };
            Ok(KeyRequest::Rsa { exponent, modulus_length })
        },
        Algorithm::Ecdh => {
            let curve = supported_curve(algorithm.named_curve)?;
            Ok(KeyRequest::Ecdh { curve })
        },
        Algorithm::Ecdsa => {
            let curve = supported_curve(algorithm.named_curve)?;
            Ok(KeyRequest::Ecdsa { curve })
        },
        Algorithm::Hmac => {
            let hash = match algorithm.hash {
                Some(h) => h,
                None => {
                    return missing("hash");
                },
            };
            Ok(KeyRequest::Hmac { hash })
        },
        _ => Err(WebCryptoError::Unsupported),
    }
}

/// What a generate call asks of the embedder: the key that its algorithm
/// arguments ask for, to be registered with the hash and told to the
/// caller with the algorithm and the extractable flag of the call; or the
/// error of its check.
pub open spec fn op_webcrypto_generate_key_post(args: WebCryptoGenerateKeyArg, r: Result<CryptoWork, OpError>) -> bool {
    match spec_lacks(args.algorithm) {
        Some(name) => fails_with(r, ErrorClass::Error, "Missing argument "@ + name),
        None => match spec_key_request(args.algorithm) {
            Some(request) => r == Ok::<CryptoWork, OpError>(
                CryptoWork::GenerateKey(
                    GenerateKey {
                        request,
                        algorithm: args.algorithm.name,
                        extractable: args.extractable,
                        hash: args.algorithm.hash,
                    },
                ),
            ),
            None => fails_with(r, ErrorClass::Error, "Unsupported algorithm"@),
        },
    }
}

/// Checks a generate call and hands the request for the key to the
/// embedder.
pub fn op_webcrypto_generate_key(args: WebCryptoGenerateKeyArg) -> (r: Result<CryptoWork, OpError>)
    ensures
        op_webcrypto_generate_key_post(args, r),
{
    match key_request(&args.algorithm) {
        Ok(request) => Ok(
            CryptoWork::GenerateKey(
                GenerateKey {
                    request,
                    algorithm: args.algorithm.name,
                    extractable: args.extractable,
                    hash: args.algorithm.hash,
                },
            ),
        ),
        Err(e) => Err(e.into_op_error()),
    }
}

/// The types of the resources that stand for the keys of a request: of
/// the private and the public key of a pair, or of a single key.
pub open spec fn spec_key_kinds(request: KeyRequest) -> (ResourceKind, Option<ResourceKind>) {
    match request {
        KeyRequest::Rsa { .. } => (ResourceKind::RsaPrivateKey, Some(ResourceKind::RsaPublicKey)),
        KeyRequest::Ecdh { .. } => (ResourceKind::EcdhPrivateKey, Some(ResourceKind::EcdhPublicKey)),
        KeyRequest::Ecdsa { .. } => (ResourceKind::EcdsaKey, None),
        KeyRequest::Hmac { .. } => (ResourceKind::HmacKey, None),
    }
}

fn key_kinds(request: &KeyRequest) -> (k: (ResourceKind, Option<ResourceKind>))
    ensures
        k == spec_key_kinds(*request),
{
    match request {
        KeyRequest::Rsa { .. } => (ResourceKind::RsaPrivateKey, Some(ResourceKind::RsaPublicKey)),
        KeyRequest::Ecdh { .. } => (ResourceKind::EcdhPrivateKey, Some(ResourceKind::EcdhPublicKey)),
        KeyRequest::Ecdsa { .. } => (ResourceKind::EcdsaKey, None),
        KeyRequest::Hmac { .. } => (ResourceKind::HmacKey, None),
    }
}

/// Whether `resource` is a free key resource of type `kind` for the key
/// `handle`, generated for `hash`.
pub open spec fn is_key(resource: Resource, kind: ResourceKind, handle: u64, hash: Option<WebCryptoHash>) -> bool {
    &&& resource.wf()
    &&& resource.kind == kind
    &&& resource.handle == handle
    &&& resource.cell.holder() is None
    &&& resource.cell.waiters() =~= Seq::empty()
    &&& resource.cancel is None
    &&& resource.keep_alive is None
    &&& resource.key_hash == hash
}

fn key_resource(kind: ResourceKind, handle: u64, hash: Option<WebCryptoHash>) -> (r: Resource)
    ensures
        is_key(r, kind, handle, hash),
{
    let mut r = Resource::new(kind, handle);
    r.key_hash = hash;
    r
}

/// What registering generated key material does. A pair for a request
/// that asks for a pair: the private key is registered under the next
/// id and the public key under the one after it. A single key for a
/// request that asks for one: it is registered under the next id. Every
/// key is registered with the hash of the call, every other resource
/// stays, and the caller is told the ids and the keys: public and private
/// for a pair, private for a signing key, secret for an authentication
/// key. Material of the wrong shape is refused, and so is material that
/// the table has no ids for; then nothing is registered.
pub open spec fn generated_post(
    before: OpState,
    call: GenerateKey,
    generated: Generated,
    after: OpState,
    r: Result<JSCryptoKey, OpError>,
) -> bool {
    let first = before.resource_table.next_rid();
    let kinds = spec_key_kinds(call.request);
    let table = before.resource_table@;
    match (generated, kinds.1) {
        (Generated::Pair { private_key, public_key }, Some(public_kind)) => if first < u32::MAX - 1 {
            &&& r == Ok::<JSCryptoKey, OpError>(
                JSCryptoKey::Pair {
                    key: WebCryptoKeyPair {
                        public_key: WebCryptoKey {
                            key_type: KeyType::Public,
                            extractable: call.extractable,
                            algorithm: call.algorithm,
                        },
                        private_key: WebCryptoKey {
                            key_type: KeyType::Private,
                            extractable: call.extractable,
                            algorithm: call.algorithm,
                        },
                    },
                    private_rid: first,
                    public_rid: (first + 1) as u32,
                },
            )
            &&& same_but_table(before, after)
            &&& after.resource_table.next_rid() == first + 2
            &&& is_key(after.resource_table@[first], kinds.0, private_key, call.hash)
            &&& is_key(
                after.resource_table@[(first + 1) as u32],
                public_kind,
                public_key,
                call.hash,
            )
            &&& after.resource_table@ == table.insert(first, after.resource_table@[first]).insert(
                (first + 1) as u32,
                after.resource_table@[(first + 1) as u32],
            )
        } else {
            after == before && fails_with(r, ErrorClass::Error, table_full_message())
        },
        (Generated::Single { key }, None) => if first < u32::MAX {
            &&& r == Ok::<JSCryptoKey, OpError>(
                JSCryptoKey::Single {
                    key: WebCryptoKey {
                        key_type: if call.request is Hmac {
                            KeyType::Secret
                        } else {
                            KeyType::Private
                        },
                        extractable: call.extractable,
                        algorithm: call.algorithm,
                    },
                    rid: first,
                },
            )
            &&& same_but_table(before, after)
            &&& after.resource_table.next_rid() == first + 1
            &&& is_key(after.resource_table@[first], kinds.0, key, call.hash)
            &&& after.resource_table@ == table.insert(first, after.resource_table@[first])
        } else {
            after == before && fails_with(r, ErrorClass::Error, table_full_message())
        },
        _ => after == before && fails_with(r, ErrorClass::TypeError, "Invalid key material"@),
    }
}

/// Registers the key material that the embedder generated for `call`, and
/// tells the caller the keys; passes the error on if it generated none.
pub fn generate_key_done(state: &mut OpState, call: GenerateKey, outcome: Result<Generated, OpError>) -> (r: Result<
    JSCryptoKey,
    OpError,
>)
    requires
        old(state).wf(),
    ensures
        final(state).wf(),
        match outcome {
            Ok(generated) => generated_post(*old(state), call, generated, *final(state), r),
            Err(e) => *final(state) == *old(state) && r == Err::<JSCryptoKey, OpError>(e),
        },
{
    let generated = outcome?;
    let (kind, public_kind) = key_kinds(&call.request);
    let first = state.resource_table.next();
    match (generated, public_kind) {
        (Generated::Pair { private_key, public_key }, Some(public_kind)) => {
            if first >= u32::MAX - 1 {
                return Err(generic_error("Resource table is full"));
            }
            let private_rid = state.resource_table.add(key_resource(kind, private_key, call.hash));
            let public_rid = state.resource_table.add(
                key_resource(public_kind, public_key, call.hash),
            );
            Ok(
                JSCryptoKey::Pair {
                    key: WebCryptoKeyPair {
                        public_key: WebCryptoKey {
                            key_type: KeyType::Public,
                            extractable: call.extractable,
                            algorithm: call.algorithm,
                        },
                        private_key: WebCryptoKey {
                            key_type: KeyType::Private,
                            extractable: call.extractable,
                            algorithm: call.algorithm,
                        },
                    },
                    private_rid,
                    public_rid,
                },
            )
        },
        (Generated::Single { key }, None) => {
            if first >= u32::MAX {
                return Err(generic_error("Resource table is full"));
            }
            let key_type = match call.request {
                KeyRequest::Hmac { .. } => KeyType::Secret,
                _ => KeyType::Private,
            };
            let rid = state.resource_table.add(key_resource(kind, key, call.hash));
            Ok(
                JSCryptoKey::Single {
                    key: WebCryptoKey {
                        key_type,
                        extractable: call.extractable,
                        algorithm: call.algorithm,
                    },
                    rid,
                },
            )
        },
        _ => Err(type_error("Invalid key material")),
    }
}

/// The type of the key resource that signing with `algorithm` needs, if
/// signing with it is supported.
pub open spec fn spec_signing_kind(algorithm: Algorithm) -> Option<ResourceKind> {
    match algorithm {
        Algorithm::RsassaPkcs1v15 | Algorithm::RsaOaep => Some(ResourceKind::RsaPrivateKey),
        Algorithm::Ecdsa => Some(ResourceKind::EcdsaKey),
        Algorithm::Hmac => Some(ResourceKind::HmacKey),
        _ => None,
    }
}

/// What a sign call asks of the embedder. The algorithm must be one to
/// sign with, and a key of its type must be registered under the id. The
/// second RSA algorithm also needs a salt length and a key that was
/// generated for a hash. The state is only read.
pub open spec fn op_webcrypto_sign_key_post(state: OpState, args: WebCryptoSignArg, r: Result<CryptoWork, OpError>) -> bool {
    match spec_signing_kind(args.algorithm) {
        None => fails_with(r, ErrorClass::Error, "Unsupported algorithm"@),
        Some(kind) => match spec_get(state.resource_table@, args.rid, kind) {
            None => fails_with(r, ErrorClass::BadResource, "Bad resource ID"@),
            Some(resource) => match args.algorithm {
                Algorithm::RsaOaep => if args.salt_length is None {
                    fails_with(r, ErrorClass::Error, "Missing argument "@ + "saltLength"@)
                } else if resource.key_hash is None {
                    fails_with(r, ErrorClass::Error, "Missing argument "@ + "hash"@)
                } else {
                    r == Ok::<CryptoWork, OpError>(
                        CryptoWork::Sign {
                            key: resource.handle,
                            scheme: SignScheme::Pss {
                                hash: resource.key_hash->0,
                                salt_len: args.salt_length->0,
                            },
                        },
                    )
                },
                Algorithm::RsassaPkcs1v15 => r == Ok::<CryptoWork, OpError>(
                    CryptoWork::Sign { key: resource.handle, scheme: SignScheme::Pkcs1v15 },
                ),
                Algorithm::Ecdsa => r == Ok::<CryptoWork, OpError>(
                    CryptoWork::Sign { key: resource.handle, scheme: SignScheme::Ecdsa },
                ),
                _ => r == Ok::<CryptoWork, OpError>(
                    CryptoWork::Sign { key: resource.handle, scheme: SignScheme::Hmac },
                ),
            },
        },
    }
}

fn missing_argument<T>(name: &str) -> (r: Result<T, OpError>)
    ensures
        fails_with(r, ErrorClass::Error, "Missing argument "@ + name@),
{
    Err(WebCryptoError::MissingArgument(String::from_str(name)).into_op_error())
}

/// Checks a sign call and says which key the embedder has to sign with,
/// and how.
pub fn op_webcrypto_sign_key(state: &OpState, args: WebCryptoSignArg) -> (r: Result<CryptoWork, OpError>)
    requires
        state.wf(),
    ensures
        op_webcrypto_sign_key_post(*state, args, r),
{
    match args.algorithm {
        Algorithm::RsassaPkcs1v15 => {
            let resource = state.resource_table.get(args.rid, ResourceKind::RsaPrivateKey)?;
            Ok(CryptoWork::Sign { key: resource.handle, scheme: SignScheme::Pkcs1v15 })
        },
        Algorithm::RsaOaep => {
            let resource = state.resource_table.get(args.rid, ResourceKind::RsaPrivateKey)?;
            let salt_len = match args.salt_length {
                Some(n) => n,
                None => {
                    return missing_argument("saltLength");
                },
            };
            let hash = match resource.key_hash {
                Some(h) => h,
                None => {
                    return missing_argument("hash");
                },
            };
            Ok(CryptoWork::Sign { key: resource.handle, scheme: SignScheme::Pss { hash, salt_len } })
        },
        Algorithm::Ecdsa => {
            let resource = state.resource_table.get(args.rid, ResourceKind::EcdsaKey)?;
            Ok(CryptoWork::Sign { key: resource.handle, scheme: SignScheme::Ecdsa })
        },
        Algorithm::Hmac => {
            let resource = state.resource_table.get(args.rid, ResourceKind::HmacKey)?;
            Ok(CryptoWork::Sign { key: resource.handle, scheme: SignScheme::Hmac })
        },
        _ => Err(WebCryptoError::Unsupported.into_op_error()),
    }
}

/// The ops of this module.
#[derive(Clone, Copy, Debug, PartialEq, Eq, Structural)]
pub enum CryptoOp {
    GetRandomValues,
    GenerateKey,
    SignKey,
}

/// The key work of a call as native work.
pub open spec fn spec_lift(r: Result<CryptoWork, OpError>) -> Result<NativeWork, OpError> {
    match r {
        Ok(work) => Ok(NativeWork::Crypto(work)),
        Err(e) => Err(e),
    }
}

fn lift(r: Result<CryptoWork, OpError>) -> (l: Result<NativeWork, OpError>)
    ensures
        l == spec_lift(r),
{
    match r {
        Ok(work) => Ok(NativeWork::Crypto(work)),
        Err(e) => Err(e),
    }
}

impl CryptoOp {
    /// The name under which the op is registered.
    pub open spec fn spec_name(self) -> Seq<char> {
        match self {
            CryptoOp::GetRandomValues => "op_crypto_get_random_values"@,
            CryptoOp::GenerateKey => "op_webcrypto_generate_key"@,
            CryptoOp::SignKey => "op_webcrypto_sign_key"@,
        }
    }

    pub fn name(&self) -> (s: &'static str)
        ensures
            s@ == self.spec_name(),
    {
        match self {
            CryptoOp::GetRandomValues => "op_crypto_get_random_values",
            CryptoOp::GenerateKey => "op_webcrypto_generate_key",
            CryptoOp::SignKey => "op_webcrypto_sign_key",
        }
    }

    /// What the first half of a call of this op yields. Random values and
    /// signing need a buffer; a call without one, and arguments of another
    /// shape, are errors.
    pub open spec fn starts(self, state: OpState, args: OpArgs, buf: OpBuf, r: Result<CryptoWork, OpError>) -> bool {
        match (self, args) {
            (CryptoOp::GetRandomValues, _) => if buf is Some {
                r == Ok::<CryptoWork, OpError>(
                    CryptoWork::RandomValues { seeded_rng: state.seeded_rng },
                )
            } else {
                fails_with(r, ErrorClass::TypeError, "Invalid arguments"@)
            },
            (CryptoOp::GenerateKey, OpArgs::GenerateKey(a)) => op_webcrypto_generate_key_post(a, r),
            (CryptoOp::SignKey, OpArgs::SignKey(a)) => if buf is Some {
                op_webcrypto_sign_key_post(state, a, r)
            } else {
                fails_with(r, ErrorClass::TypeError, "Invalid arguments"@)
            },
            _ => fails_with(r, ErrorClass::TypeError, "Invalid arguments"@),
        }
    }
}

impl OpHandler for CryptoOp {
    /// The first half of the op runs; the call is suspended on the key
    /// work that it asks for, or fails at once. The state is only read.
    open spec fn post(
        &self,
        before: OpState,
        promise_id: PromiseId,
        args: OpArgs,
        buf: OpBuf,
        after: OpState,
        op: Op,
    ) -> bool {
        after == before && exists|r: Result<CryptoWork, OpError>| #[trigger]
            self.starts(before, args, buf, r) && op == spec_started(promise_id, spec_lift(r))
    }

    fn call(&self, state: &mut OpState, promise_id: PromiseId, args: OpArgs, buf: OpBuf) -> (op: Op) {
        let has_buf = buf.is_some();
        let r = match (self, args) {
            (CryptoOp::GetRandomValues, _) => if has_buf {
                Ok(op_crypto_get_random_values(state))
            } else {
                Err(invalid_args())
            },
            (CryptoOp::GenerateKey, OpArgs::GenerateKey(a)) => op_webcrypto_generate_key(a),
            (CryptoOp::SignKey, OpArgs::SignKey(a)) => if has_buf {
                op_webcrypto_sign_key(state, a)
            } else {
                Err(invalid_args())
            },
            _ => Err(invalid_args()),
        };
        proof {
            assert(self.starts(*old(state), args, buf, r));
        }
        started(promise_id, lift(r))
    }
}

/// The handler of a key op.
pub fn crypto_op(op: CryptoOp) -> (f: OpFn)
    ensures
        f.behaves_as(op),
{
    OpFn { handler: Box::new(op) }
}

/// The key ops in the order in which they are registered.
pub fn ops() -> (all: Vec<OpPair>)
    ensures
        all@.len() == 3,
        declares(all@, 0, CryptoOp::GetRandomValues.spec_name(), CryptoOp::GetRandomValues),
        declares(all@, 1, CryptoOp::GenerateKey.spec_name(), CryptoOp::GenerateKey),
        declares(all@, 2, CryptoOp::SignKey.spec_name(), CryptoOp::SignKey),
{
    let mut all: Vec<OpPair> = Vec::new();
    all.push((CryptoOp::GetRandomValues.name(), crypto_op(CryptoOp::GetRandomValues)));
    all.push((CryptoOp::GenerateKey.name(), crypto_op(CryptoOp::GenerateKey)));
    all.push((CryptoOp::SignKey.name(), crypto_op(CryptoOp::SignKey)));
    all
}

/// The extension of this module: its script, whose text is `source`, and
/// its ops.
pub fn init(source: &'static str) -> (e: Extension)
    ensures
        e.js_files().len() == 1,
        e.js_files()[0].0@ == "deno:op_crates/crypto/01_crypto.js"@,
        e.js_files()[0].1 == source,
        e.ops().len() == 3,
        declares(e.ops(), 0, CryptoOp::GetRandomValues.spec_name(), CryptoOp::GetRandomValues),
        declares(e.ops(), 1, CryptoOp::GenerateKey.spec_name(), CryptoOp::GenerateKey),
        declares(e.ops(), 2, CryptoOp::SignKey.spec_name(), CryptoOp::SignKey),
        e.opstate_fn() is None,
        e.middleware_fn() is None,
        !e.ops_consumed(),
        !e.state_consumed(),
{
    let mut files: Vec<SourcePair> = Vec::new();
    files.push(("deno:op_crates/crypto/01_crypto.js", source));
    Extension::with_ops(files, ops(), None)
}

/// The name of the type declarations of this module.
pub fn get_declaration() -> (name: &'static str)
    ensures
        name@ == "lib.deno_crypto.d.ts"@,
{
    "lib.deno_crypto.d.ts"
}

} // verus!
