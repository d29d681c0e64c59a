//! What the wallet API client decides around its HTTP calls: configuration
//! defaults, request validation, the signing plan of a transaction, and the
//! errors built from failed responses.
use vstd::prelude::*;
use vstd::utf8::encode_utf8;
use crate::caip2_mappings::{derive_submission_config, submission_row_of};
use crate::client_constants::{
    ClientNetworkConfig, ClientNetworkConfigView, DerivationPath, bitcoin_path, ethereum_path,
    family_network_config, get_client_network_config, network_family, solana_path, sui_path,
};
use crate::client_errors::{
    ClientError, WalletServiceError, is_wallet_service_error_of, parse_wallet_service_error,
};
use crate::client_types::{
    AuthenticatorConfig, CreateAuthenticatorParams, PhantomClientConfig, PrepareErrorResponse,
    SignTransactionParams, SubmissionConfig, UserConfig, authenticator_name_of,
};
use crate::text::{
    chars_of, decimal, opt_view, push_decimal, push_str, str_eq, string_from_chars,
};

verus! {

/// Maximum length in bytes for names (organization, username, authenticator).
pub const MAX_NAME_LENGTH: usize = 64;

/// The default wallet type.
pub open spec fn default_wallet_type() -> Seq<char> {
    "user-wallet"@
}

/// The configuration a client runs with: an empty wallet type means a user wallet.
pub fn resolve_client_config(config: PhantomClientConfig) -> (r: PhantomClientConfig)
    ensures
        r.api_base_url == config.api_base_url,
        r.organization_id == config.organization_id,
        r.headers == config.headers,
        r.wallet_type@ == if config.wallet_type@.len() == 0 {
            default_wallet_type()
        } else {
            config.wallet_type@
        },
{
    let mut resolved = config;
    let w = chars_of(resolved.wallet_type.as_str());
    if w.len() == 0 {
        resolved.wallet_type = String::from_str("user-wallet");
    }
    resolved
}

/// Set the organization ID; an empty ID is refused.
pub fn set_organization_id(config: &mut PhantomClientConfig, organization_id: String) -> (r: Result<(), ClientError>)
    ensures
        if organization_id@.len() == 0 {
            r matches Err(ClientError::Config(m)) && m@ == "organizationId is required"@ && *final(config)
                == *old(config)
        } else {
            r is Ok && final(config).organization_id == Some(organization_id) && final(config).api_base_url
                == old(config).api_base_url && final(config).headers == old(config).headers
                && final(config).wallet_type == old(config).wallet_type
        },
{
    let c = chars_of(organization_id.as_str());
    if c.len() == 0 {
        return Err(ClientError::Config(String::from_str("organizationId is required")));
    }
    config.organization_id = Some(organization_id);
    Ok(())
}

/// The message refusing a name longer than `MAX_NAME_LENGTH` bytes.
pub open spec fn name_too_long_message(name_type: Seq<char>, len: nat) -> Seq<char> {
    name_type + " name cannot exceed 64 characters. Current length: "@ + decimal(len)
}

/// The first name among `names` whose UTF-8 length exceeds `MAX_NAME_LENGTH`.
pub open spec fn name_too_long(name: Seq<char>) -> bool {
    encode_utf8(name).len() > 64
}

/// Validate that a name doesn't exceed the maximum length (in bytes).
pub fn validate_name_length(name: &str, name_type: &str) -> (r: Result<(), ClientError>)
    ensures
        if name_too_long(name@) {
            r matches Err(ClientError::Config(m)) && m@ == name_too_long_message(
                name_type@,
                encode_utf8(name@).len(),
            )
        } else {
            r is Ok
        },
{
    let len = name.as_bytes().len();
    if len > MAX_NAME_LENGTH {
        let mut v = chars_of(name_type);
        push_str(&mut v, " name cannot exceed 64 characters. Current length: ");
        push_decimal(&mut v, len as u64);
        return Err(ClientError::Config(string_from_chars(v.as_slice())));
    }
    Ok(())
}

/// The first failing check of a name that is validated only when non-empty.
pub open spec fn optional_name_error(name: Seq<char>, name_type: Seq<char>) -> Option<Seq<char>> {
    if name.len() > 0 && name_too_long(name) {
        Some(name_too_long_message(name_type, encode_utf8(name).len()))
    } else {
        None
    }
}

/// The first failing check among the authenticators of a user.
pub open spec fn authenticators_error(auths: Seq<AuthenticatorConfig>) -> Option<Seq<char>>
    decreases auths.len(),
{
    if auths.len() == 0 {
        None
    } else {
        match optional_name_error(authenticator_name_of(auths[0]), "Authenticator"@) {
            Some(e) => Some(e),
            None => authenticators_error(auths.skip(1)),
        }
    }
}

/// The first failing name check among users: each username, then each of
/// the user's authenticator names.
pub open spec fn users_error(users: Seq<UserConfig>) -> Option<Seq<char>>
    decreases users.len(),
{
    if users.len() == 0 {
        None
    } else {
        match optional_name_error(users[0].username@, "Username"@) {
            Some(e) => Some(e),
            None => match authenticators_error(users[0].authenticators@) {
                Some(e) => Some(e),
                None => users_error(users.skip(1)),
            },
        }
    }
}

/// Why an organization cannot be created, in the order of the checks.
pub open spec fn organization_error(name: Seq<char>, users: Seq<UserConfig>) -> Option<Seq<char>> {
    if name.len() == 0 {
        Some("Organization name is required"@)
    } else if name_too_long(name) {
        Some(name_too_long_message("Organization"@, encode_utf8(name).len()))
    } else if users.len() == 0 {
        Some("At least one user is required"@)
    } else {
        users_error(users)
    }
}

fn check_optional_name(name: &str, name_type: &str) -> (r: Result<(), ClientError>)
    ensures
        match optional_name_error(name@, name_type@) {
            Some(e) => r matches Err(ClientError::Config(m)) && m@ == e,
            None => r is Ok,
        },
{
    let c = chars_of(name);
    if c.len() > 0 {
        validate_name_length(name, name_type)
    } else {
        Ok(())
    }
}

/// Validates the organization name, the user list and every username and
/// authenticator name of a `createOrganization` request.
pub fn validate_organization_request(name: &str, users: &[UserConfig]) -> (r: Result<(), ClientError>)
    ensures
        match organization_error(name@, users@) {
            Some(e) => r matches Err(ClientError::Config(m)) && m@ == e,
            None => r is Ok,
        },
{
    let n = chars_of(name);
    if n.len() == 0 {
        return Err(ClientError::Config(String::from_str("Organization name is required")));
    }
    match validate_name_length(name, "Organization") {
        Ok(()) => {},
        Err(e) => return Err(e),
    }
    if users.len() == 0 {
        return Err(ClientError::Config(String::from_str("At least one user is required")));
    }
    let mut i: usize = 0;
    proof {
        assert(users@.skip(0) =~= users@);
    }
    while i < users.len()
        invariant
            0 <= i <= users@.len(),
            users@.len() > 0,
            name@.len() > 0,
            !name_too_long(name@),
            users_error(users@) == users_error(users@.skip(i as int)),
        decreases users@.len() - i,
    {
        let user = &users[i];
        proof {
            assert(users@.skip(i as int)[0] == *user);
            assert(users@.skip(i as int).skip(1) =~= users@.skip(i + 1));
        }
        let ghost rest = users@.skip(i as int);
        proof {
            assert(rest.len() > 0);
            assert(users_error(rest) == match optional_name_error(user.username@, "Username"@) {
                Some(e) => Some(e),
                None => match authenticators_error(user.authenticators@) {
                    Some(e) => Some(e),
                    None => users_error(rest.skip(1)),
                },
            });
        }
        match check_optional_name(user.username.as_str(), "Username") {
            Ok(()) => {},
            Err(e) => return Err(e),
        }
        let mut k: usize = 0;
        let ghost auths = user.authenticators@;
        proof {
            assert(auths.skip(0) =~= auths);
        }
        while k < user.authenticators.len()
            invariant
                0 <= k <= auths.len(),
                auths == user.authenticators@,
                0 <= i < users@.len(),
                users@.len() > 0,
                name@.len() > 0,
                !name_too_long(name@),
                users_error(users@) == users_error(users@.skip(i as int)),
                *user == users@[i as int],
                users_error(users@.skip(i as int)) == match authenticators_error(user.authenticators@) {
                    Some(e) => Some(e),
                    None => users_error(users@.skip(i as int).skip(1)),
                },
                authenticators_error(auths) == authenticators_error(auths.skip(k as int)),
            decreases auths.len() - k,
        {
            let a = &user.authenticators[k];
            proof {
                assert(auths.skip(k as int)[0] == *a);
                assert(auths.skip(k as int).skip(1) =~= auths.skip(k + 1));
            }
            proof {
                let ar = auths.skip(k as int);
                assert(ar.len() > 0);
                assert(authenticators_error(ar) == match optional_name_error(authenticator_name_of(*a), "Authenticator"@) {
                    Some(e) => Some(e),
                    None => authenticators_error(ar.skip(1)),
                });
            }
            match check_optional_name(a.authenticator_name(), "Authenticator") {
                Ok(()) => {},
                Err(e) => return Err(e),
            }
            k = k + 1;
        }
        proof {
            assert(auths.skip(auths.len() as int) =~= Seq::<AuthenticatorConfig>::empty());
        }
        i = i + 1;
    }
    proof {
        assert(users@.skip(users@.len() as int) =~= Seq::<UserConfig>::empty());
    }
    Ok(())
}

/// Why an authenticator cannot be created: its username, its name, then the
/// name inside its configuration, each checked when non-empty.
pub open spec fn authenticator_request_error(p: CreateAuthenticatorParams) -> Option<Seq<char>> {
    match optional_name_error(p.username@, "Username"@) {
        Some(e) => Some(e),
        None => match optional_name_error(p.authenticator_name@, "Authenticator"@) {
            Some(e) => Some(e),
            None => optional_name_error(authenticator_name_of(p.authenticator), "Authenticator"@),
        },
    }
}

/// Validates the names of a `createAuthenticator` request.
pub fn validate_authenticator_request(params: &CreateAuthenticatorParams) -> (r: Result<(), ClientError>)
    ensures
        match authenticator_request_error(*params) {
            Some(e) => r matches Err(ClientError::Config(m)) && m@ == e,
            None => r is Ok,
        },
{
    match check_optional_name(params.username.as_str(), "Username") {
        Ok(()) => {},
        Err(e) => return Err(e),
    }
    match check_optional_name(params.authenticator_name.as_str(), "Authenticator") {
        Ok(()) => {},
        Err(e) => return Err(e),
    }
    check_optional_name(params.authenticator.authenticator_name(), "Authenticator")
}

/// The policy given to a user of a new organization.
#[derive(Debug, Clone, Copy, PartialEq, Eq, Structural)]
pub enum UserPolicy {
    /// `{ "type": "root" }`: an administrator.
    Root,
    /// `{ "type": "CEL", "preset": "LEGACY_USER_ROLE" }`: a plain user.
    LegacyUserRole,
}

/// The policy of a user: administrators (role "ADMIN" or no role) get the
/// root policy, every other role the legacy user role.
pub fn user_policy(role: Option<&str>) -> (r: UserPolicy)
    ensures
        r == match role {
            None => UserPolicy::Root,
            Some(x) => if x@ == "ADMIN"@ {
                UserPolicy::Root
            } else {
                UserPolicy::LegacyUserRole
            },
        },
{
    match role {
        None => UserPolicy::Root,
        Some(x) => if str_eq(x, "ADMIN") {
            UserPolicy::Root
        } else {
            UserPolicy::LegacyUserRole
        },
    }
}

/// The username sent for a new organization's user: the given one, or
/// `user-<generated_id>` when it is empty.
pub fn organization_username(username: &str, generated_id: &str) -> (r: String)
    ensures
        r@ == if username@.len() > 0 {
            username@
        } else {
            "user-"@ + generated_id@
        },
{
    let u = chars_of(username);
    if u.len() > 0 {
        String::from_str(username)
    } else {
        let mut v = chars_of("user-");
        push_str(&mut v, generated_id);
        string_from_chars(v.as_slice())
    }
}

/// The name of a new wallet: the given one, or `Wallet <timestamp>`.
pub fn wallet_name_or_default(wallet_name: Option<&str>, timestamp: u64) -> (r: String)
    ensures
        r@ == match wallet_name {
            Some(n) => n@,
            None => "Wallet "@ + decimal(timestamp as nat),
        },
{
    match wallet_name {
        Some(n) => String::from_str(n),
        None => {
            let mut v = chars_of("Wallet ");
            push_decimal(&mut v, timestamp);
            string_from_chars(v.as_slice())
        },
    }
}

/// The account paths derived by default: Solana, Ethereum, Bitcoin and Sui
/// at the given account index.
pub fn default_account_paths(account_index: u32) -> (r: Vec<String>)
    ensures
        r.deep_view() == seq![
            solana_path(account_index),
            ethereum_path(account_index),
            bitcoin_path(account_index),
            sui_path(account_index),
        ],
{
    let r = vec![
        DerivationPath::solana(account_index),
        DerivationPath::ethereum(account_index),
        DerivationPath::bitcoin(account_index),
        DerivationPath::sui(account_index),
    ];
    proof {
        assert(r.deep_view() =~= seq![
            solana_path(account_index),
            ethereum_path(account_index),
            bitcoin_path(account_index),
            sui_path(account_index),
        ]);
    }
    r
}

/// The RPC method name of a signing request.
pub open spec fn rpc_method_name(is_evm: bool, include_submission_config: bool) -> Seq<char> {
    if is_evm {
        if include_submission_config { "eth_sendTransaction"@ } else { "eth_signTransaction"@ }
    } else if include_submission_config {
        "signAndSendTransaction"@
    } else {
        "signTransaction"@
    }
}

/// Determine the RPC method name from the kind of network and whether the
/// transaction is also submitted.
pub fn get_rpc_method_name(is_evm: bool, include_submission_config: bool) -> (r: &'static str)
    ensures
        r@ == rpc_method_name(is_evm, include_submission_config),
{
    if is_evm {
        if include_submission_config {
            "eth_sendTransaction"
        } else {
            "eth_signTransaction"
        }
    } else if include_submission_config {
        "signAndSendTransaction"
    } else {
        "signTransaction"
    }
}

/// The form in which a transaction is handed to the signer.
#[derive(Debug, Clone)]
pub enum TransactionForSigning {
    /// EVM: `{ kind: "RLP_ENCODED", bytes: <transaction> }`.
    RlpEncoded,
    /// Solana user wallet: the transaction goes through the prepare endpoint
    /// first, simulated for this account.
    Prepare { account: String },
    /// Any other chain: the encoded transaction as it is.
    AsIs,
}

/// Everything a transaction signing request needs, decided before the calls.
#[derive(Debug, Clone)]
pub struct SigningPlan {
    pub organization_id: String,
    pub method_name: String,
    pub submission_config: SubmissionConfig,
    pub network_config: ClientNetworkConfig,
    pub transaction: TransactionForSigning,
    /// Whether the submission config is sent along (sign and send).
    pub include_submission_config: bool,
    /// The account sent as simulation config (sign and send with an account).
    pub simulation_account: Option<String>,
}

/// Why a transaction cannot be signed, in the order of the checks.
pub open spec fn signing_error(
    config: PhantomClientConfig,
    params: SignTransactionParams,
    is_evm: bool,
    is_solana: bool,
) -> Option<ClientErrorKind> {
    let index = match params.derivation_index {
        Some(i) => i,
        None => 0u32,
    };
    if config.organization_id is None {
        Some(ClientErrorKind::Config("organizationId is required to sign a transaction"@))
    } else if submission_row_of(params.network_id@) is None {
        Some(
            ClientErrorKind::Config(
                "SubmissionConfig could not be derived for network ID: "@ + params.network_id@,
            ),
        )
    } else if family_network_config(network_family(params.network_id@), index) is None {
        Some(ClientErrorKind::UnsupportedNetwork(params.network_id@))
    } else if !is_evm && is_solana && config.wallet_type@ == "user-wallet"@ && params.account is None {
        Some(ClientErrorKind::Config("Account is required to simulate Solana transactions with spending limits"@))
    } else {
        None
    }
}

/// The kind and message of a client error built from plain strings.
pub enum ClientErrorKind {
    Config(Seq<char>),
    UnsupportedNetwork(Seq<char>),
}

/// Decides how a transaction is signed: the organization, RPC method,
/// submission and network configuration, and the form of the transaction
/// (EVM networks wrap it; Solana user wallets go through the prepare
/// endpoint and need an account; others send it as it is).
pub fn plan_transaction_signing(
    config: &PhantomClientConfig,
    params: &SignTransactionParams,
    include_submission_config: bool,
    is_evm: bool,
    is_solana: bool,
) -> (r: Result<SigningPlan, ClientError>)
    ensures
        match signing_error(*config, *params, is_evm, is_solana) {
            Some(ClientErrorKind::Config(m)) => r matches Err(ClientError::Config(x)) && x@ == m,
            Some(ClientErrorKind::UnsupportedNetwork(m)) => r matches Err(ClientError::UnsupportedNetwork(x))
                && x@ == m,
            None => r matches Ok(plan) && {
                let index = match params.derivation_index {
                    Some(i) => i,
                    None => 0u32,
                };
                &&& Some(plan.organization_id@) == opt_view(config.organization_id)
                &&& plan.method_name@ == rpc_method_name(is_evm, include_submission_config)
                &&& plan.submission_config.chain@ == submission_row_of(params.network_id@).unwrap().chain
                &&& plan.submission_config.network@ == submission_row_of(params.network_id@).unwrap().network
                &&& plan.network_config@ == family_network_config(network_family(params.network_id@), index).unwrap()
                &&& plan.include_submission_config == include_submission_config
                &&& plan.simulation_account == if include_submission_config { params.account } else { None }
                &&& if is_evm {
                    plan.transaction is RlpEncoded
                } else if is_solana && config.wallet_type@ == "user-wallet"@ {
                    plan.transaction matches TransactionForSigning::Prepare { account } && Some(account)
                        == params.account
                } else {
                    plan.transaction is AsIs
                }
            },
        },
{
    let org_id = match &config.organization_id {
        Some(o) => o.clone(),
        None => return Err(
            ClientError::Config(String::from_str("organizationId is required to sign a transaction")),
        ),
    };
    let index: u32 = match params.derivation_index {
        Some(i) => i,
        None => 0,
    };
    let method_name = String::from_str(get_rpc_method_name(is_evm, include_submission_config));
    let submission_config = match derive_submission_config(params.network_id.as_str()) {
        Some(c) => c,
        None => {
            let mut v = chars_of("SubmissionConfig could not be derived for network ID: ");
            push_str(&mut v, params.network_id.as_str());
            return Err(ClientError::Config(string_from_chars(v.as_slice())));
        },
    };
    let network_config = match get_client_network_config(params.network_id.as_str(), index) {
        Some(c) => c,
        None => return Err(ClientError::UnsupportedNetwork(params.network_id.clone())),
    };
    let transaction = if is_evm {
        TransactionForSigning::RlpEncoded
    } else if is_solana && str_eq(config.wallet_type.as_str(), "user-wallet") {
        match &params.account {
            Some(a) => TransactionForSigning::Prepare { account: a.clone() },
            None => return Err(
                ClientError::Config(
                    String::from_str("Account is required to simulate Solana transactions with spending limits"),
                ),
            ),
        }
    } else {
        TransactionForSigning::AsIs
    };
    let simulation_account = if include_submission_config {
        match &params.account {
            Some(a) => Some(a.clone()),
            None => None,
        }
    } else {
        None
    };
    Ok(SigningPlan {
        organization_id: org_id,
        method_name,
        submission_config,
        network_config,
        transaction,
        include_submission_config,
        simulation_account,
    })
}

/// The organization and network configuration of a message-signing request;
/// `org_error` is the message used when no organization ID is configured.
pub fn message_signing_context(
    config: &PhantomClientConfig,
    network_id: &str,
    derivation_index: Option<u32>,
    org_error: &str,
) -> (r: Result<(String, ClientNetworkConfig), ClientError>)
    ensures
        ({
            let index = match derivation_index {
                Some(i) => i,
                None => 0u32,
            };
            if config.organization_id is None {
                r matches Err(ClientError::Config(m)) && m@ == org_error@
            } else if family_network_config(network_family(network_id@), index) is None {
                r matches Err(ClientError::UnsupportedNetwork(m)) && m@ == network_id@
            } else {
                r matches Ok(p) && Some(p.0@) == opt_view(config.organization_id) && p.1@
                    == family_network_config(network_family(network_id@), index).unwrap()
            }
        }),
{
    let org_id = match &config.organization_id {
        Some(o) => o.clone(),
        None => return Err(ClientError::Config(String::from_str(org_error))),
    };
    let index: u32 = match derivation_index {
        Some(i) => i,
        None => 0,
    };
    match get_client_network_config(network_id, index) {
        Some(c) => Ok((org_id, c)),
        None => Err(ClientError::UnsupportedNetwork(String::from_str(network_id))),
    }
}

/// The error of a failed prepare call, from its error body (`None` when the
/// body could not be read): a wallet service error when the body names one,
/// else its detail, else its message, else "Failed to submit transaction".
pub fn prepare_failure(body: Option<PrepareErrorResponse>) -> (r: ClientError)
    ensures
        match body {
            None => r matches ClientError::Prepare(m) && m@ == "Failed to submit transaction"@,
            Some(b) => match b.error_type {
                Some(_) => r matches ClientError::WalletService(e) && is_wallet_service_error_of(b, e),
                None => r matches ClientError::Prepare(m) && m@ == match b.detail {
                    Some(d) => d@,
                    None => match b.message {
                        Some(x) => x@,
                        None => "Failed to submit transaction"@,
                    },
                },
            },
        },
{
    match body {
        None => ClientError::Prepare(String::from_str("Failed to submit transaction")),
        Some(b) => {
            if let Some(ws) = parse_wallet_service_error(&b) {
                return ClientError::WalletService(ws);
            }
            let message = match b.detail {
                Some(d) => d,
                None => match b.message {
                    Some(m) => m,
                    None => String::from_str("Failed to submit transaction"),
                },
            };
            ClientError::Prepare(message)
        },
    }
}

/// The error of a failed KMS RPC call: its HTTP status and response text.
pub fn kms_api_error(status: u16, error_text: &str) -> (r: ClientError)
    ensures
        r matches ClientError::Api(m) && m@ == "KMS API error (status "@ + decimal(status as nat) + "): "@
            + error_text@,
{
    let mut v = chars_of("KMS API error (status ");
    push_decimal(&mut v, status as u64);
    push_str(&mut v, "): ");
    push_str(&mut v, error_text);
    ClientError::Api(string_from_chars(v.as_slice()))
}

} // verus!
