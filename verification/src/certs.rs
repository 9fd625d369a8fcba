//! The certificate bundle of one mail domain, and signing with it.
//!
//! A bundle is made from the bytes of two PEM files: the certificate chain,
//! leaf first, and the private key of the leaf. OpenSSL parses the files and
//! signs; what is made of its answers is decided here.

use openssl::error::ErrorStack;
use openssl::pkcs7::Pkcs7;
use openssl::pkcs7::Pkcs7Flags;
use openssl::pkey::PKey;
use openssl::pkey::Private;
use openssl::stack::Stack;
use openssl::x509::X509;
use vstd::prelude::*;

verus! {

/// An X.509 certificate held by OpenSSL.
#[verifier::external_type_specification]
#[verifier::external_body]
pub struct ExX509(X509);

/// The errors OpenSSL queued while a call failed.
#[verifier::external_type_specification]
#[verifier::external_body]
pub struct ExErrorStack(ErrorStack);

/// A key held by OpenSSL.
#[verifier::external_type_specification]
#[verifier::external_body]
#[verifier::reject_recursive_types(T)]
pub struct ExPKey<T>(PKey<T>);

/// The marker of keys that have their private part.
#[verifier::external_type_specification]
#[verifier::external_body]
pub struct ExPrivate(Private);

/// A PKCS#7 structure held by OpenSSL.
#[verifier::external_type_specification]
#[verifier::external_body]
pub struct ExPkcs7(Pkcs7);

/// The most bytes that OpenSSL takes in one piece: the largest number of its
/// C `int`.
pub const MAX_INPUT: usize = 0x7fff_ffff;

/// The flag bit of OpenSSL that asks for a detached signature: one that does
/// not enclose the content it signs.
pub const DETACHED: i32 = 0x40;

/// Makes the flags that a profile is signed with: a detached signature is
/// asked for, and nothing else.
pub fn signature_flags() -> (flags: i32)
    ensures
        flags == DETACHED,
{
    DETACHED
}

/// An OpenSSL stack of certificates.
#[verifier::external_body]
pub struct CertStack {
    inner: Stack<X509>,
}

/// The certificates on a stack, bottom first.
pub uninterp spec fn stack_certs(stack: CertStack) -> Seq<X509>;

/// Calls `X509::stack_from_pem`, which takes no more than [`MAX_INPUT`]
/// bytes.
///
/// Trusted, with nothing claimed: OpenSSL decides whether the bytes parse and
/// which certificates they hold.
#[verifier::external_body]
fn x509_stack_from_pem(pem: &[u8]) -> (found: Result<Vec<X509>, ErrorStack>)
    requires
        pem@.len() <= MAX_INPUT,
{
    X509::stack_from_pem(pem)
}

/// Calls `clone` on a certificate.
///
/// Trusted: the clone is a second handle on the same certificate.
#[verifier::external_body]
fn x509_clone(cert: &X509) -> (copy: X509)
    ensures
        copy == *cert,
{
    cert.clone()
}

/// Calls `Stack::new`.
///
/// Trusted: a stack that was made is empty.
#[verifier::external_body]
fn stack_new() -> (made: Result<CertStack, ErrorStack>)
    ensures
        made matches Ok(stack) ==> stack_certs(stack) == Seq::<X509>::empty(),
{
    match Stack::new() {
        Ok(inner) => Ok(CertStack { inner }),
        Err(error) => Err(error),
    }
}

/// Calls `push` on a stack.
///
/// Trusted: on success the certificate is the new top of the stack and the
/// rest is as before.
#[verifier::external_body]
fn stack_push(stack: &mut CertStack, cert: X509) -> (pushed: Result<(), ErrorStack>)
    ensures
        pushed is Ok ==> stack_certs(*final(stack)) == stack_certs(*old(stack)).push(cert),
{
    stack.inner.push(cert)
}

/// Calls `PKey::private_key_from_pem`, which takes no more than
/// [`MAX_INPUT`] bytes.
///
/// Trusted, with nothing claimed: OpenSSL decides whether the bytes hold a
/// private key.
#[verifier::external_body]
fn private_key_from_pem(pem: &[u8]) -> (key: Result<PKey<Private>, ErrorStack>)
    requires
        pem@.len() <= MAX_INPUT,
{
    PKey::private_key_from_pem(pem)
}

/// Calls `Pkcs7::sign` with the flags whose bits are given. It takes no more
/// than [`MAX_INPUT`] bytes of content.
///
/// Trusted, with nothing claimed: the signature holds the time of signing.
#[verifier::external_body]
fn pkcs7_sign(
    cert: &X509,
    key: &PKey<Private>,
    chain: &CertStack,
    content: &[u8],
    flags: i32,
) -> (signed: Result<Pkcs7, ErrorStack>)
    requires
        content@.len() <= MAX_INPUT,
{
    Pkcs7::sign(cert, key, &chain.inner, content, Pkcs7Flags::from_bits_retain(flags))
}

/// Calls `to_der` on a PKCS#7 structure.
///
/// Trusted, with nothing claimed.
#[verifier::external_body]
fn pkcs7_to_der(signed: &Pkcs7) -> (der: Result<Vec<u8>, ErrorStack>) {
    signed.to_der()
}

/// Why a certificate bundle could not be made.
#[derive(Debug)]
pub enum CertError {
    /// The chain file could not be read; the text says why.
    ChainUnreadable(String),
    /// The chain file holds more than [`MAX_INPUT`] bytes.
    ChainTooLong,
    /// The chain file is not a sequence of PEM certificates.
    ChainParseError(ErrorStack),
    /// The chain file holds no certificate.
    EmptyChain,
    /// OpenSSL could not build the stack that holds the chain.
    ChainBuildError(ErrorStack),
    /// The key file could not be read; the text says why.
    KeyUnreadable(String),
    /// The key file holds more than [`MAX_INPUT`] bytes.
    KeyTooLong,
    /// The key file does not hold a private key.
    KeyParseError(ErrorStack),
}

/// Why a document could not be signed.
#[derive(Debug)]
pub enum SignError {
    /// No certificate bundle is held for the domain.
    MissingCertificate,
    /// The content holds more than [`MAX_INPUT`] bytes.
    ContentTooLong,
    /// OpenSSL could not sign.
    Signing(ErrorStack),
    /// OpenSSL could not encode the signature.
    Encoding(ErrorStack),
}

/// A certificate chain that is known to hold its leaf.
pub struct CertChain {
    leaf: X509,
    certs: CertStack,
}

impl CertChain {
    /// The leaf certificate.
    pub closed spec fn leaf(&self) -> X509 {
        self.leaf
    }

    /// All certificates of the chain, leaf first.
    pub closed spec fn certs(&self) -> Seq<X509> {
        stack_certs(self.certs)
    }

    /// A chain is not empty and starts with its leaf.
    #[verifier::type_invariant]
    pub closed spec fn wf(&self) -> bool {
        self.certs().len() > 0 && self.leaf() == self.certs()[0]
    }

    /// Makes a chain of the certificates that a chain file held.
    ///
    /// Without a certificate there is no chain. Otherwise the first
    /// certificate is the leaf and all of them, in their order, are the
    /// chain, unless OpenSSL fails to build the stack.
    pub fn from_certificates(found: Vec<X509>) -> (made: Result<CertChain, CertError>)
        ensures
            found@.len() == 0 <==> made matches Err(CertError::EmptyChain),
            match made {
                Ok(chain) => chain.wf() && chain.certs() == found@ && chain.leaf() == found@[0],
                Err(error) => error is EmptyChain || error is ChainBuildError,
            },
    {
        if found.len() == 0 {
            return Err(CertError::EmptyChain);
        }
        let leaf = x509_clone(&found[0]);
        let mut certs = match stack_new() {
            Ok(stack) => stack,
            Err(error) => {
                return Err(CertError::ChainBuildError(error));
            },
        };
        let ghost all = found@;
        for cert in it: found
            invariant
                it.seq() == all,
                stack_certs(certs) == all.take(it.index()),
        {
            match stack_push(&mut certs, cert) {
                Ok(()) => {},
                Err(error) => {
                    return Err(CertError::ChainBuildError(error));
                },
            }
            proof {
                assert(all.take(it.index() + 1) =~= all.take(it.index()).push(cert));
            }
        }
        proof {
            assert(all.take(all.len() as int) =~= all);
        }
        Ok(CertChain { leaf, certs })
    }

    /// Takes what OpenSSL answered when asked to parse a chain file: a failure
    /// is a parse error that holds OpenSSL's errors, and of the certificates
    /// that were found a chain is made.
    pub fn chain_answer(parsed: Result<Vec<X509>, ErrorStack>) -> (made: Result<
        CertChain,
        CertError,
    >)
        ensures
            match parsed {
                Err(error) => made == Err::<CertChain, CertError>(
                    CertError::ChainParseError(error),
                ),
                Ok(found) => {
                    &&& found@.len() == 0 <==> made is Err && made->Err_0 is EmptyChain
                    &&& made is Ok ==> made->Ok_0.wf() && made->Ok_0.certs() == found@
                        && made->Ok_0.leaf() == found@[0]
                    &&& made is Err ==> made->Err_0 is EmptyChain || made->Err_0 is ChainBuildError
                },
            },
    {
        match parsed {
            Ok(found) => CertChain::from_certificates(found),
            Err(error) => Err(CertError::ChainParseError(error)),
        }
    }

    /// Parses the bytes of a chain file and makes a chain of what they hold.
    /// More bytes than OpenSSL takes are refused unread.
    pub fn from_pem(pem: &[u8]) -> (made: Result<CertChain, CertError>)
        ensures
            pem@.len() > MAX_INPUT <==> made matches Err(CertError::ChainTooLong),
            match made {
                Ok(chain) => chain.wf(),
                Err(error) => error is ChainTooLong || error is ChainParseError
                    || error is EmptyChain || error is ChainBuildError,
            },
    {
        if pem.len() > MAX_INPUT {
            return Err(CertError::ChainTooLong);
        }
        CertChain::chain_answer(x509_stack_from_pem(pem))
    }

    /// Makes a chain from what reading the chain file gave: a file that was
    /// not read is reported with its reason, and the bytes of one that was
    /// read are parsed.
    pub fn load(chain: &Result<Vec<u8>, String>) -> (made: Result<CertChain, CertError>)
        ensures
            chain is Err <==> made matches Err(CertError::ChainUnreadable(_)),
            chain matches Err(reason) ==> (made matches Err(CertError::ChainUnreadable(text))
                && text@ == reason@),
            (chain is Ok && chain->Ok_0@.len() > MAX_INPUT) <==> made matches Err(
                CertError::ChainTooLong,
            ),
            made matches Ok(loaded) ==> loaded.wf(),
            made matches Err(error) ==> error is ChainUnreadable || error is ChainTooLong
                || error is ChainParseError || error is EmptyChain || error is ChainBuildError,
    {
        match chain {
            Ok(bytes) => CertChain::from_pem(bytes.as_slice()),
            Err(reason) => Err(CertError::ChainUnreadable(reason.clone())),
        }
    }
}

/// The certificate bundle of one domain: the leaf certificate, the full
/// chain and the private key.
pub struct Certs {
    cert: X509,
    chain: CertStack,
    key: PKey<Private>,
}

impl Certs {
    /// The leaf certificate, with which documents are signed.
    pub closed spec fn leaf(&self) -> X509 {
        self.cert
    }

    /// All certificates of the chain, leaf first.
    pub closed spec fn chain_certs(&self) -> Seq<X509> {
        stack_certs(self.chain)
    }

    /// The private key.
    pub closed spec fn private_key(&self) -> PKey<Private> {
        self.key
    }

    /// The chain of a bundle is not empty and starts with the leaf.
    #[verifier::type_invariant]
    pub closed spec fn wf(&self) -> bool {
        self.chain_certs().len() > 0 && self.leaf() == self.chain_certs()[0]
    }

    /// Puts a chain and a key together.
    pub fn from_parts(chain: CertChain, key: PKey<Private>) -> (bundle: Certs)
        ensures
            bundle.wf(),
            bundle.leaf() == chain.leaf(),
            bundle.chain_certs() == chain.certs(),
            bundle.private_key() == key,
    {
        proof {
            use_type_invariant(&chain);
        }
        Certs { cert: chain.leaf, chain: chain.certs, key }
    }

    /// Takes what OpenSSL answered when asked to parse the key file of a
    /// chain: with a key the bundle is made of the chain and the key, a
    /// failure is a parse error that holds OpenSSL's errors.
    pub fn key_answer(chain: CertChain, parsed: Result<PKey<Private>, ErrorStack>) -> (made:
        Result<Certs, CertError>)
        ensures
            match parsed {
                Ok(key) => made matches Ok(bundle) && bundle.wf() && bundle.leaf() == chain.leaf()
                    && bundle.chain_certs() == chain.certs() && bundle.private_key() == key,
                Err(error) => made == Err::<Certs, CertError>(CertError::KeyParseError(error)),
            },
    {
        match parsed {
            Ok(key) => Ok(Certs::from_parts(chain, key)),
            Err(error) => Err(CertError::KeyParseError(error)),
        }
    }

    /// Goes on once the chain is there: an error of the chain is handed on as
    /// it is; a key file that was not read is reported with its reason; one
    /// with more bytes than OpenSSL takes is refused unread; and the bytes of
    /// any other are parsed. A bundle that is made holds the chain as it came.
    pub fn with_chain(chain: Result<CertChain, CertError>, key: &Result<Vec<u8>, String>) -> (made:
        Result<Certs, CertError>)
        ensures
            chain matches Err(error) ==> made == Err::<Certs, CertError>(error),
            chain is Ok ==> (key is Err <==> made matches Err(CertError::KeyUnreadable(_))),
            (chain is Ok && key is Err) ==> (made matches Err(CertError::KeyUnreadable(text))
                && text@ == key->Err_0@),
            chain is Ok ==> ((key is Ok && key->Ok_0@.len() > MAX_INPUT) <==> made matches Err(
                CertError::KeyTooLong,
            )),
            made matches Ok(bundle) ==> (chain matches Ok(parsed) && key is Ok && bundle.wf()
                && bundle.leaf() == parsed.leaf() && bundle.chain_certs() == parsed.certs()),
            chain is Ok ==> (made matches Err(CertError::KeyParseError(_)) ==> key is Ok
                && key->Ok_0@.len() <= MAX_INPUT),
            (chain is Ok && key is Ok && key->Ok_0@.len() <= MAX_INPUT) ==> (made is Ok
                || made matches Err(CertError::KeyParseError(_))),
    {
        let chain = match chain {
            Ok(chain) => chain,
            Err(error) => {
                return Err(error);
            },
        };
        let key_pem = match key {
            Ok(bytes) => bytes,
            Err(reason) => {
                return Err(CertError::KeyUnreadable(reason.clone()));
            },
        };
        if key_pem.len() > MAX_INPUT {
            return Err(CertError::KeyTooLong);
        }
        Certs::key_answer(chain, private_key_from_pem(key_pem.as_slice()))
    }

    /// Makes the bundle of a domain from what reading its two files gave.
    ///
    /// The steps are taken in this order, and the first that fails decides
    /// the error: the chain file was read, neither file holds more bytes than
    /// OpenSSL takes, the chain parses, it holds a certificate, the key file
    /// was read, it parses.
    pub fn new(chain: &Result<Vec<u8>, String>, key: &Result<Vec<u8>, String>) -> (made: Result<
        Certs,
        CertError,
    >)
        ensures
            made matches Ok(bundle) ==> bundle.wf() && chain is Ok && key is Ok,
            chain is Err <==> made matches Err(CertError::ChainUnreadable(_)),
            chain matches Err(reason) ==> (made matches Err(CertError::ChainUnreadable(text))
                && text@ == reason@),
            (chain is Ok && chain->Ok_0@.len() > MAX_INPUT) <==> made matches Err(
                CertError::ChainTooLong,
            ),
            (chain is Ok && chain->Ok_0@.len() <= MAX_INPUT && key is Ok && key->Ok_0@.len()
                > MAX_INPUT) <==> made matches Err(CertError::KeyTooLong),
            made matches Err(CertError::KeyUnreadable(text)) ==> (key matches Err(reason)
                && text@ == reason@ && chain is Ok),
            made matches Err(CertError::KeyParseError(_)) ==> chain is Ok && key is Ok,
            (chain is Ok && chain->Ok_0@.len() <= MAX_INPUT && key is Err) ==> (made matches Err(
                error,
            ) && (error is ChainParseError || error is EmptyChain || error is ChainBuildError
                || error is KeyUnreadable)),
    {
        let key_too_long = match key {
            Ok(bytes) => bytes.len() > MAX_INPUT,
            Err(_) => false,
        };
        let chain_within = match chain {
            Ok(bytes) => bytes.len() <= MAX_INPUT,
            Err(_) => false,
        };
        if chain_within && key_too_long {
            return Err(CertError::KeyTooLong);
        }
        Certs::with_chain(CertChain::load(chain), key)
    }

    /// Signs `content` with the leaf certificate and the private key, and
    /// returns the detached PKCS#7 signature, DER-encoded, with the chain
    /// enclosed. More content than OpenSSL takes is refused unsigned.
    pub fn sign(&self, content: &[u8]) -> (signed: Result<Vec<u8>, SignError>)
        ensures
            content@.len() > MAX_INPUT <==> signed matches Err(SignError::ContentTooLong),
            signed matches Err(error) ==> error is ContentTooLong || error is Signing
                || error is Encoding,
    {
        if content.len() > MAX_INPUT {
            return Err(SignError::ContentTooLong);
        }
        let signature = match signing_answer(
            pkcs7_sign(&self.cert, &self.key, &self.chain, content, signature_flags()),
        ) {
            Ok(signature) => signature,
            Err(error) => {
                return Err(error);
            },
        };
        encoding_answer(pkcs7_to_der(&signature))
    }
}

/// Takes what OpenSSL answered when asked to sign: a signature is handed on
/// as it is, a failure is a signing error that holds OpenSSL's errors.
pub fn signing_answer(signed: Result<Pkcs7, ErrorStack>) -> (answer: Result<Pkcs7, SignError>)
    ensures
        answer == (match signed {
            Ok(signature) => Ok::<Pkcs7, SignError>(signature),
            Err(error) => Err::<Pkcs7, SignError>(SignError::Signing(error)),
        }),
{
    match signed {
        Ok(signature) => Ok(signature),
        Err(error) => Err(SignError::Signing(error)),
    }
}

/// Takes what OpenSSL answered when asked to encode a signature: the bytes
/// are handed on as they are, a failure is an encoding error that holds
/// OpenSSL's errors.
pub fn encoding_answer(encoded: Result<Vec<u8>, ErrorStack>) -> (answer: Result<
    Vec<u8>,
    SignError,
>)
    ensures
        answer == (match encoded {
            Ok(bytes) => Ok::<Vec<u8>, SignError>(bytes),
            Err(error) => Err::<Vec<u8>, SignError>(SignError::Encoding(error)),
        }),
{
    match encoded {
        Ok(bytes) => Ok(bytes),
        Err(error) => Err(SignError::Encoding(error)),
    }
}

} // verus!
