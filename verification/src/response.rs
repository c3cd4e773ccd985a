//! What an operation hands back to its caller: attributes that describe what
//! was done, and instructions for the token contract.

use vstd::prelude::*;
use vstd::string::*;
use crate::msg::{SendFrom, UpdateBalanceView};

verus! {

/// A named value that describes part of what an operation did.
#[derive(Debug, PartialEq, Eq)]
pub struct Attribute {
    pub key: String,
    pub value: String,
}

impl View for Attribute {
    type V = (Seq<char>, Seq<char>);

    open spec fn view(&self) -> (Seq<char>, Seq<char>) {
        (self.key@, self.value@)
    }
}

/// What the token contract is asked to do.
#[derive(Debug, PartialEq, Eq)]
pub enum TokenCall {
    /// Move tokens of a user into custody and confirm the deposit.
    SendFrom(SendFrom),
    /// Move tokens out of custody to `recipient`.
    Transfer { recipient: String, amount: u128 },
}

/// Mathematical model of [`TokenCall`].
pub enum TokenCallView {
    SendFrom { owner: Seq<char>, contract: Seq<char>, amount: nat, msg: UpdateBalanceView },
    Transfer { recipient: Seq<char>, amount: nat },
}

impl View for TokenCall {
    type V = TokenCallView;

    open spec fn view(&self) -> TokenCallView {
        match self {
            TokenCall::SendFrom(call) => TokenCallView::SendFrom {
                owner: call.owner@,
                contract: call.contract@,
                amount: call.amount as nat,
                msg: call.msg@,
            },
            TokenCall::Transfer { recipient, amount } => TokenCallView::Transfer {
                recipient: recipient@,
                amount: *amount as nat,
            },
        }
    }
}

/// An instruction for the token contract at `contract_addr`. It carries no
/// funds.
#[derive(Debug, PartialEq, Eq)]
pub struct TokenMsg {
    pub contract_addr: String,
    pub call: TokenCall,
}

/// Mathematical model of [`TokenMsg`].
pub struct TokenMsgView {
    pub contract_addr: Seq<char>,
    pub call: TokenCallView,
}

impl View for TokenMsg {
    type V = TokenMsgView;

    open spec fn view(&self) -> TokenMsgView {
        TokenMsgView { contract_addr: self.contract_addr@, call: self.call@ }
    }
}

/// The result of a request that was carried out.
#[derive(Debug, PartialEq, Eq)]
pub struct Response {
    pub attributes: Vec<Attribute>,
    pub messages: Vec<TokenMsg>,
}

/// Mathematical model of [`Response`].
#[verifier::ext_equal]
pub struct ResponseView {
    pub attributes: Seq<(Seq<char>, Seq<char>)>,
    pub messages: Seq<TokenMsgView>,
}

impl View for Response {
    type V = ResponseView;

    open spec fn view(&self) -> ResponseView {
        ResponseView {
            attributes: self.attributes@.map_values(|attribute: Attribute| attribute@),
            messages: self.messages@.map_values(|message: TokenMsg| message@),
        }
    }
}

impl Response {
    /// A response without attributes or instructions.
    pub fn new() -> (response: Response)
        ensures
            response@ == (ResponseView { attributes: Seq::empty(), messages: Seq::empty() }),
    {
        let response = Response { attributes: Vec::new(), messages: Vec::new() };
        assert(response@.attributes =~= Seq::empty());
        assert(response@.messages =~= Seq::empty());
        response
    }

    /// Adds an attribute after those that are there.
    pub fn add_attribute(self, key: &str, value: String) -> (response: Response)
        ensures
            response@ == (ResponseView {
                attributes: self@.attributes.push((key@, value@)),
                messages: self@.messages,
            }),
    {
        let mut response = self;
        response.attributes.push(Attribute { key: String::from_str(key), value });
        assert(response@.attributes =~= self@.attributes.push((key@, value@)));
        response
    }

    /// Adds an instruction after those that are there.
    pub fn add_message(self, message: TokenMsg) -> (response: Response)
        ensures
            response@ == (ResponseView {
                attributes: self@.attributes,
                messages: self@.messages.push(message@),
            }),
    {
        let mut response = self;
        response.messages.push(message);
        assert(response@.messages =~= self@.messages.push(message@));
        response
    }
}

} // verus!
