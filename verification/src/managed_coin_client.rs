//! Payload builders and response readers for the managed-coin module:
//! initializing the coin, registering a receiver, minting, and reading a
//! balance.
use vstd::prelude::*;

verus! {

use crate::errors::QueryError;
use crate::hexenc::hex_encode;
use crate::hexenc::spec_hex_encode;
use crate::jsonio::json_str_field3;
use crate::jsonio::spec_json_str_at;
use crate::payload::ActionPayload;
use crate::payload::PayloadView;
use crate::payload::string_views;
use crate::rest_client::RestClient;
use crate::rest_client::decode_u64_field;
use crate::text::digits_value;
use crate::text::spec_u64_string;
use crate::text::valid_u64_decimal;
use crate::text::u64_to_string;
use vstd::string::StringExecFns;

/// The on-chain type tag of the managed coin published under `addr`.
pub open spec fn coin_type_tag(addr: Seq<char>) -> Seq<char> {
    "0x"@ + addr + "::Vault::ManagedCoin"@
}

/// The resource type of an account's store of that coin.
pub open spec fn coin_store_tag(addr: Seq<char>) -> Seq<char> {
    "0x1::coin::CoinStore<0x"@ + addr + "::Vault::ManagedCoin>"@
}

/// The coin's display name, "Moon Coin", as ASCII bytes.
pub open spec fn coin_name_bytes() -> Seq<u8> {
    seq![77u8, 111u8, 111u8, 110u8, 32u8, 67u8, 111u8, 105u8, 110u8]
}

/// The coin's ticker symbol, "MOON", as ASCII bytes.
pub open spec fn coin_symbol_bytes() -> Seq<u8> {
    seq![77u8, 79u8, 79u8, 78u8]
}

fn coin_name() -> (r: Vec<u8>)
    ensures
        r@ == coin_name_bytes(),
{
    let mut v: Vec<u8> = Vec::new();
    v.push(77);
    v.push(111);
    v.push(111);
    v.push(110);
    v.push(32);
    v.push(67);
    v.push(111);
    v.push(105);
    v.push(110);
    proof {
        assert(v@ =~= coin_name_bytes());
    }
    v
}

fn coin_symbol() -> (r: Vec<u8>)
    ensures
        r@ == coin_symbol_bytes(),
{
    let mut v: Vec<u8> = Vec::new();
    v.push(77);
    v.push(79);
    v.push(79);
    v.push(78);
    proof {
        assert(v@ =~= coin_symbol_bytes());
    }
    v
}

/// Client for the managed-coin module. It builds the payloads; the caller
/// submits them through the submission interface.
pub struct ManagedCoinClient {
    rest_client: RestClient,
}

impl ManagedCoinClient {
    pub closed spec fn spec_rest_client(&self) -> RestClient {
        self.rest_client
    }

    pub fn new(rest_client: RestClient) -> (r: Self)
        ensures
            r.spec_rest_client() == rest_client,
    {
        ManagedCoinClient { rest_client }
    }

    /// The coin's type tag as a string.
    pub fn coin_type(address: &str) -> (r: String)
        ensures
            r@ == coin_type_tag(address@),
    {
        let mut s = String::from_str("0x");
        s.append(address);
        s.append("::Vault::ManagedCoin");
        s
    }

    /// The payload initializing the new coin under the sender's account:
    /// name and symbol hex-encoded, 6 decimals, no supply monitoring.
    pub fn initialize_coin(&self, sender_address: &str) -> (p: ActionPayload)
        ensures
            p@ == (PayloadView::ScriptFunction {
                function: "0x1::managed_coin::initialize"@,
                type_arguments: seq![coin_type_tag(sender_address@)],
                arguments: seq![
                    spec_hex_encode(coin_name_bytes()),
                    spec_hex_encode(coin_symbol_bytes()),
                    "6"@,
                    "false"@,
                ],
            }),
    {
        let name_bytes = coin_name();
        let symbol_bytes = coin_symbol();
        let mut type_arguments: Vec<String> = Vec::new();
        type_arguments.push(Self::coin_type(sender_address));
        let mut arguments: Vec<String> = Vec::new();
        arguments.push(hex_encode(&name_bytes));
        arguments.push(hex_encode(&symbol_bytes));
        arguments.push(String::from_str("6"));
        arguments.push(String::from_str("false"));
        proof {
            assert(string_views(type_arguments@) =~= seq![coin_type_tag(sender_address@)]);
            assert(string_views(arguments@) =~= seq![
                spec_hex_encode(coin_name_bytes()),
                spec_hex_encode(coin_symbol_bytes()),
                "6"@,
                "false"@,
            ]);
        }
        ActionPayload::ScriptFunction {
            function: String::from_str("0x1::managed_coin::initialize"),
            type_arguments,
            arguments,
        }
    }

    /// The payload with which a receiver registers the coin so it can hold
    /// it.
    pub fn register_coin(&self, coin_type_address: &str) -> (p: ActionPayload)
        ensures
            p@ == (PayloadView::ScriptFunction {
                function: "0x1::coin::register"@,
                type_arguments: seq![coin_type_tag(coin_type_address@)],
                arguments: Seq::empty(),
            }),
    {
        let mut type_arguments: Vec<String> = Vec::new();
        type_arguments.push(Self::coin_type(coin_type_address));
        let arguments: Vec<String> = Vec::new();
        proof {
            assert(string_views(type_arguments@) =~= seq![coin_type_tag(coin_type_address@)]);
            assert(string_views(arguments@) =~= Seq::<Seq<char>>::empty());
        }
        ActionPayload::ScriptFunction {
            function: String::from_str("0x1::coin::register"),
            type_arguments,
            arguments,
        }
    }

    /// The payload minting `amount` units of the owner's coin to the
    /// receiver.
    pub fn mint_coin(&self, owner_address: &str, receiver_address: &str, amount: u64) -> (p:
        ActionPayload)
        ensures
            p@ == (PayloadView::ScriptFunction {
                function: "0x1::managed_coin::mint"@,
                type_arguments: seq![coin_type_tag(owner_address@)],
                arguments: seq![receiver_address@, spec_u64_string(amount as nat)],
            }),
    {
        let mut type_arguments: Vec<String> = Vec::new();
        type_arguments.push(Self::coin_type(owner_address));
        let mut arguments: Vec<String> = Vec::new();
        arguments.push(String::from_str(receiver_address));
        arguments.push(u64_to_string(amount));
        proof {
            assert(string_views(type_arguments@) =~= seq![coin_type_tag(owner_address@)]);
            assert(string_views(arguments@) =~= seq![
                receiver_address@,
                spec_u64_string(amount as nat),
            ]);
        }
        ActionPayload::ScriptFunction {
            function: String::from_str("0x1::managed_coin::mint"),
            type_arguments,
            arguments,
        }
    }

    /// The resource type whose `data.coin.value` field holds an account's
    /// balance of the coin.
    pub fn balance_resource_type(coin_type_address: &str) -> (r: String)
        ensures
            r@ == coin_store_tag(coin_type_address@),
    {
        let mut s = String::from_str("0x1::coin::CoinStore<0x");
        s.append(coin_type_address);
        s.append("::Vault::ManagedCoin>");
        s
    }

    /// Reads a balance query response. `Ok(None)` when the account holds no
    /// such coin store (HTTP 404: absence, not an error). On a 200 the
    /// result is fixed by the body: the decimal value of its
    /// `data.coin.value` field when that is a valid `u64` decimal,
    /// `MalformedResponse` exactly otherwise. Read-only: the result is a
    /// function of the status and body alone.
    pub fn get_balance(&self, status: u16, body: &str) -> (r: Result<Option<u64>, QueryError>)
        ensures
            status == 404 ==> (r matches Ok(o) && o is None),
            !(status == 200 || status == 404) ==> r == Err::<Option<u64>, QueryError>(
                QueryError::UnexpectedStatus,
            ),
            status == 200 ==> match spec_json_str_at(body@, seq!["data"@, "coin"@, "value"@]) {
                Some(s) => if valid_u64_decimal(s) {
                    (r matches Ok(o) && o matches Some(n) && n == digits_value(s))
                } else {
                    r == Err::<Option<u64>, QueryError>(QueryError::MalformedResponse)
                },
                None => r == Err::<Option<u64>, QueryError>(QueryError::MalformedResponse),
            },
            (r matches Ok(o) && o is Some) ==> status == 200,
    {
        if status == 404 {
            return Ok(None);
        }
        if status != 200 {
            return Err(QueryError::UnexpectedStatus);
        }
        let s = match json_str_field3(body, "data", "coin", "value") {
            Some(s) => s,
            None => {
                return Err(QueryError::MalformedResponse);
            },
        };
        match decode_u64_field(s.as_str()) {
            Ok(n) => Ok(Some(n)),
            Err(e) => Err(e),
        }
    }
}

} // verus!
