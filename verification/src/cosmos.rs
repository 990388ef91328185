use vstd::prelude::*;

verus! {

/// An amount of one native token.
#[derive(Clone, Debug, PartialEq, Eq)]
pub struct Coin {
    pub denom: String,
    pub amount: u128,
}

pub struct CoinView {
    pub denom: Seq<char>,
    pub amount: u128,
}

impl View for Coin {
    type V = CoinView;

    open spec fn view(&self) -> CoinView {
        CoinView { denom: self.denom@, amount: self.amount }
    }
}

/// Who sent a message, and the funds attached to it.
#[derive(Clone, Debug, PartialEq, Eq)]
pub struct MessageInfo {
    pub sender: String,
    pub funds: Vec<Coin>,
}

/// A key and a value that a response reports.
#[derive(Clone, Debug, PartialEq, Eq)]
pub struct Attribute {
    pub key: String,
    pub value: String,
}

/// A bank transfer of native tokens out of the contract.
#[derive(Clone, Debug, PartialEq, Eq)]
pub struct BankSend {
    pub to_address: String,
    pub amount: Vec<Coin>,
}

pub struct SendView {
    pub to_address: Seq<char>,
    pub amount: Seq<CoinView>,
}

impl View for BankSend {
    type V = SendView;

    open spec fn view(&self) -> SendView {
        SendView { to_address: self.to_address@, amount: self.amount@.map_values(|c: Coin| c@) }
    }
}

/// What a successful operation hands back to the chain: the messages to dispatch
/// and the attributes to report.
#[derive(Clone, Debug, PartialEq, Eq)]
pub struct Response {
    pub messages: Vec<BankSend>,
    pub attributes: Vec<Attribute>,
}

pub struct ResponseView {
    pub messages: Seq<SendView>,
    pub attributes: Seq<(Seq<char>, Seq<char>)>,
}

impl View for Response {
    type V = ResponseView;

    open spec fn view(&self) -> ResponseView {
        ResponseView {
            messages: self.messages@.map_values(|m: BankSend| m@),
            attributes: self.attributes@.map_values(|a: Attribute| (a.key@, a.value@)),
        }
    }
}

impl Response {
    /// A response with no messages and no attributes.
    pub fn new() -> (r: Response)
        ensures
            r@ == (ResponseView { messages: seq![], attributes: seq![] }),
    {
        let r = Response { messages: Vec::new(), attributes: Vec::new() };
        assert(r@.messages =~= seq![]);
        assert(r@.attributes =~= seq![]);
        r
    }

    /// This response with the attribute `key = value` appended.
    pub fn add_attribute(self, key: &str, value: String) -> (r: Response)
        ensures
            r@ == (ResponseView {
                messages: self@.messages,
                attributes: self@.attributes.push((key@, value@)),
            }),
    {
        let mut attributes = self.attributes;
        let ghost before = attributes@;
        attributes.push(Attribute { key: String::from_str(key), value });
        let r = Response { messages: self.messages, attributes };
        assert(r@.attributes =~= before.map_values(|a: Attribute| (a.key@, a.value@)).push(
            (key@, value@),
        ));
        r
    }

    /// This response with the message `msg` appended.
    pub fn add_message(self, msg: BankSend) -> (r: Response)
        ensures
            r@ == (ResponseView {
                messages: self@.messages.push(msg@),
                attributes: self@.attributes,
            }),
    {
        let mut messages = self.messages;
        let ghost before = messages@;
        let ghost m = msg@;
        messages.push(msg);
        let r = Response { messages, attributes: self.attributes };
        assert(r@.messages =~= before.map_values(|b: BankSend| b@).push(m));
        r
    }
}

} // verus!
