//! Payload builders and response readers for the vault module: publishing
//! the module, initializing, pausing and unpausing the vault, deposits and
//! withdrawals, and reading the pause flag.
use vstd::prelude::*;

verus! {

use crate::errors::QueryError;
use crate::jsonio::json_bool_field2;
use crate::jsonio::spec_json_bool_at;
use crate::payload::ActionPayload;
use crate::payload::PayloadView;
use crate::payload::string_views;
use crate::rest_client::RestClient;
use crate::text::spec_u64_string;
use crate::text::u64_to_string;
use vstd::string::StringExecFns;

/// The fully qualified name of a vault-module function published under
/// `addr`.
pub open spec fn vault_function_tag(addr: Seq<char>, name: Seq<char>) -> Seq<char> {
    "0x"@ + addr + "::Vault::"@ + name
}

/// The resource type of the vault's holder record.
pub open spec fn vault_holder_tag(addr: Seq<char>) -> Seq<char> {
    "0x"@ + addr + "::Vault::VaultHolder"@
}

fn vault_function(contract_address: &str, name: &str) -> (r: String)
    ensures
        r@ == vault_function_tag(contract_address@, name@),
{
    let mut s = String::from_str("0x");
    s.append(contract_address);
    s.append("::Vault::");
    s.append(name);
    s
}

/// Client for the vault module. It builds the payloads; the caller submits
/// them through the submission interface.
pub struct VaultClient {
    pub rest_client: RestClient,
}

impl VaultClient {
    pub fn new(url: String) -> (r: Self)
        ensures
            r.rest_client.spec_url() == url@,
    {
        VaultClient { rest_client: RestClient::new(url) }
    }

    /// The payload publishing the compiled vault module, given as hex.
    pub fn publish_module(&self, module_hex: &str) -> (p: ActionPayload)
        ensures
            p@ == (PayloadView::ModuleBundle { bytecode_hex: "0x"@ + module_hex@ }),
    {
        let mut b = String::from_str("0x");
        b.append(module_hex);
        ActionPayload::ModuleBundle { bytecode_hex: b }
    }

    /// The payload initializing the vault.
    pub fn initialize_vault(&self, contract_address: &str) -> (p: ActionPayload)
        ensures
            p@ == (PayloadView::ScriptFunction {
                function: vault_function_tag(contract_address@, "init_vault"@),
                type_arguments: Seq::empty(),
                arguments: Seq::empty(),
            }),
    {
        let type_arguments: Vec<String> = Vec::new();
        let arguments: Vec<String> = Vec::new();
        proof {
            assert(string_views(type_arguments@) =~= Seq::<Seq<char>>::empty());
        }
        ActionPayload::ScriptFunction {
            function: vault_function(contract_address, "init_vault"),
            type_arguments,
            arguments,
        }
    }

    /// The payload pausing the vault.
    pub fn pause_vault(&self, contract_address: &str) -> (p: ActionPayload)
        ensures
            p@ == (PayloadView::ScriptFunction {
                function: vault_function_tag(contract_address@, "pause_vault"@),
                type_arguments: Seq::empty(),
                arguments: Seq::empty(),
            }),
    {
        let type_arguments: Vec<String> = Vec::new();
        let arguments: Vec<String> = Vec::new();
        proof {
            assert(string_views(type_arguments@) =~= Seq::<Seq<char>>::empty());
        }
        ActionPayload::ScriptFunction {
            function: vault_function(contract_address, "pause_vault"),
            type_arguments,
            arguments,
        }
    }

    /// The payload unpausing (resuming) the vault.
    pub fn unpause_vault(&self, contract_address: &str) -> (p: ActionPayload)
        ensures
            p@ == (PayloadView::ScriptFunction {
                function: vault_function_tag(contract_address@, "unpause_vault"@),
                type_arguments: Seq::empty(),
                arguments: Seq::empty(),
            }),
    {
        let type_arguments: Vec<String> = Vec::new();
        let arguments: Vec<String> = Vec::new();
        proof {
            assert(string_views(type_arguments@) =~= Seq::<Seq<char>>::empty());
        }
        ActionPayload::ScriptFunction {
            function: vault_function(contract_address, "unpause_vault"),
            type_arguments,
            arguments,
        }
    }

    /// The resource type whose `data.paused` field holds the pause flag.
    pub fn vault_resource_type(contract_address: &str) -> (r: String)
        ensures
            r@ == vault_holder_tag(contract_address@),
    {
        let mut s = String::from_str("0x");
        s.append(contract_address);
        s.append("::Vault::VaultHolder");
        s
    }

    /// Reads a pause-status query response. `Ok(None)` when the account has
    /// no vault holder (HTTP 404: absence, not an error). On a 200 the
    /// result is fixed by the body: its `data.paused` boolean when present,
    /// `MalformedResponse` exactly otherwise. Read-only: the result is a
    /// function of the status and body alone.
    pub fn get_pause_status(&self, status: u16, body: &str) -> (r: Result<Option<bool>, QueryError>)
        ensures
            status == 404 ==> (r matches Ok(o) && o is None),
            !(status == 200 || status == 404) ==> r == Err::<Option<bool>, QueryError>(
                QueryError::UnexpectedStatus,
            ),
            status == 200 ==> match spec_json_bool_at(body@, seq!["data"@, "paused"@]) {
                Some(b) => r == Ok::<Option<bool>, QueryError>(Some(b)),
                None => r == Err::<Option<bool>, QueryError>(QueryError::MalformedResponse),
            },
            (r matches Ok(o) && o is Some) ==> status == 200,
    {
        if status == 404 {
            return Ok(None);
        }
        if status != 200 {
            return Err(QueryError::UnexpectedStatus);
        }
        match json_bool_field2(body, "data", "paused") {
            Some(b) => Ok(Some(b)),
            None => Err(QueryError::MalformedResponse),
        }
    }

    /// The payload depositing `amount` into the vault.
    pub fn deposit(&self, contract_address: &str, amount: u64) -> (p: ActionPayload)
        ensures
            p@ == (PayloadView::ScriptFunction {
                function: vault_function_tag(contract_address@, "deposit"@),
                type_arguments: Seq::empty(),
                arguments: seq![spec_u64_string(amount as nat), contract_address@],
            }),
    {
        let type_arguments: Vec<String> = Vec::new();
        let mut arguments: Vec<String> = Vec::new();
        arguments.push(u64_to_string(amount));
        arguments.push(String::from_str(contract_address));
        proof {
            assert(string_views(type_arguments@) =~= Seq::<Seq<char>>::empty());
            assert(string_views(arguments@) =~= seq![
                spec_u64_string(amount as nat),
                contract_address@,
            ]);
        }
        ActionPayload::ScriptFunction {
            function: vault_function(contract_address, "deposit"),
            type_arguments,
            arguments,
        }
    }

    /// The payload withdrawing `amount` from the vault.
    pub fn withdraw(&self, contract_address: &str, amount: u64) -> (p: ActionPayload)
        ensures
            p@ == (PayloadView::ScriptFunction {
                function: vault_function_tag(contract_address@, "withdraw"@),
                type_arguments: Seq::empty(),
                arguments: seq![spec_u64_string(amount as nat), contract_address@],
            }),
    {
        let type_arguments: Vec<String> = Vec::new();
        let mut arguments: Vec<String> = Vec::new();
        arguments.push(u64_to_string(amount));
        arguments.push(String::from_str(contract_address));
        proof {
            assert(string_views(type_arguments@) =~= Seq::<Seq<char>>::empty());
            assert(string_views(arguments@) =~= seq![
                spec_u64_string(amount as nat),
                contract_address@,
            ]);
        }
        ActionPayload::ScriptFunction {
            function: vault_function(contract_address, "withdraw"),
            type_arguments,
            arguments,
        }
    }
}

} // verus!
