//! The values that an account works on, each with the mathematical value it stands for.

use vstd::prelude::*;

verus! {

/// What an [`Address`] stands for.
#[verifier::ext_equal]
pub enum AddressView {
    Account(Seq<u8>),
    Contract(Seq<u8>),
}

/// An identity on the network: a Stellar account, by its ed25519 public key, or a contract, by
/// its hash.
#[derive(Clone, Copy, Debug, PartialEq, Eq)]
pub enum Address {
    Account([u8; 32]),
    Contract([u8; 32]),
}

impl View for Address {
    type V = AddressView;

    open spec fn view(&self) -> AddressView {
        match self {
            Address::Account(key) => AddressView::Account(key@),
            Address::Contract(hash) => AddressView::Contract(hash@),
        }
    }
}

/// Tells whether two 32-byte arrays hold the same bytes.
fn same_bytes(a: &[u8; 32], b: &[u8; 32]) -> (same: bool)
    ensures
        same == (a@ == b@),
{
    let mut i: usize = 0;
    while i < 32
        invariant
            i <= 32,
            forall|j: int| 0 <= j < i ==> a@[j] == b@[j],
        decreases 32 - i,
    {
        if a[i] != b[i] {
            assert(a@[i as int] != b@[i as int]);
            return false;
        }
        i += 1;
    }
    assert(a@ =~= b@);
    true
}

impl Address {
    /// Tells whether two addresses are the same identity.
    pub fn same(&self, other: &Address) -> (same: bool)
        ensures
            same == (self@ == other@),
            same == match (*self, *other) {
                (Address::Account(a), Address::Account(b)) => a@ == b@,
                (Address::Contract(a), Address::Contract(b)) => a@ == b@,
                _ => false,
            },
    {
        match (self, other) {
            (Address::Account(a), Address::Account(b)) => same_bytes(a, b),
            (Address::Contract(a), Address::Contract(b)) => same_bytes(a, b),
            _ => false,
        }
    }
}

/// The characters that a symbol is made of: `a-zA-Z0-9_`.
pub open spec fn is_symbol_char(c: char) -> bool {
    ||| 'a' <= c <= 'z'
    ||| 'A' <= c <= 'Z'
    ||| '0' <= c <= '9'
    ||| c == '_'
}

/// The texts that a symbol can have: at most 32 characters, each of `a-zA-Z0-9_`.
pub open spec fn is_symbol_text(text: Seq<char>) -> bool {
    &&& text.len() <= 32
    &&& forall|i: int| 0 <= i < text.len() ==> is_symbol_char(#[trigger] text[i])
}

/// A short identifier with a limited character set, such as the name of a function.
#[derive(Debug, PartialEq, Eq)]
pub struct Symbol {
    text: String,
}

impl Clone for Symbol {
    fn clone(&self) -> (copy: Symbol)
        ensures
            copy@ == self@,
    {
        proof {
            use_type_invariant(self);
        }
        Symbol { text: self.text.clone() }
    }
}

impl View for Symbol {
    type V = Seq<char>;

    closed spec fn view(&self) -> Seq<char> {
        self.text@
    }
}

impl Symbol {
    #[verifier::type_invariant]
    spec fn well_formed(self) -> bool {
        is_symbol_text(self.text@)
    }

    /// Makes a symbol of `text`, or `None` where the text is too long for one or holds a
    /// character that no symbol has.
    pub fn new(text: &str) -> (symbol: Option<Symbol>)
        ensures
            symbol is Some <==> is_symbol_text(text@),
            symbol matches Some(s) ==> s@ == text@,
            symbol is Some <==> {
                &&& text@.len() <= 32
                &&& forall|i: int|
                    0 <= i < text@.len() ==> {
                        ||| 'a' <= #[trigger] text@[i] <= 'z'
                        ||| 'A' <= text@[i] <= 'Z'
                        ||| '0' <= text@[i] <= '9'
                        ||| text@[i] == '_'
                    }
            },
    {
        let len: usize = text.unicode_len();
        if len > 32 {
            return None;
        }
        let mut i: usize = 0;
        while i < len
            invariant
                i <= len,
                len == text@.len(),
                forall|j: int| 0 <= j < i ==> is_symbol_char(#[trigger] text@[j]),
            decreases len - i,
        {
            let c = text.get_char(i);
            let allowed = ('a' <= c && c <= 'z') || ('A' <= c && c <= 'Z') || ('0' <= c && c
                <= '9') || c == '_';
            if !allowed {
                assert(!is_symbol_char(text@[i as int]));
                return None;
            }
            i += 1;
        }
        Some(Symbol { text: text.to_owned() })
    }

    /// The symbol of a text that is known to be one.
    pub(crate) fn known(text: &str) -> (symbol: Symbol)
        requires
            is_symbol_text(text@),
        ensures
            symbol@ == text@,
    {
        Symbol { text: text.to_owned() }
    }

    /// The text of the symbol.
    pub fn as_str(&self) -> (text: &str)
        ensures
            text@ == self@,
            is_symbol_text(text@),
    {
        proof {
            use_type_invariant(self);
        }
        self.text.as_str()
    }
}

/// What a [`SessionKey`] stands for.
#[verifier::ext_equal]
pub struct SessionKeyView {
    pub public_key: Seq<u8>,
    pub expires_at: u64,
    pub permissions: Seq<u32>,
}

/// A key that may act for the owner until it expires, within its permissions.
#[derive(Debug, PartialEq, Eq)]
pub struct SessionKey {
    pub public_key: [u8; 32],
    pub expires_at: u64,
    pub permissions: Vec<u32>,
}

impl Clone for SessionKey {
    fn clone(&self) -> (copy: SessionKey)
        ensures
            copy@ == self@,
            copy.public_key == self.public_key,
            copy.expires_at == self.expires_at,
            copy.permissions@ == self.permissions@,
    {
        let permissions = self.permissions.clone();
        assert(permissions@ =~= self.permissions@);
        SessionKey { public_key: self.public_key, expires_at: self.expires_at, permissions }
    }
}

impl View for SessionKey {
    type V = SessionKeyView;

    open spec fn view(&self) -> SessionKeyView {
        SessionKeyView {
            public_key: self.public_key@,
            expires_at: self.expires_at,
            permissions: self.permissions@,
        }
    }
}

impl SessionKey {
    /// Tells whether the key carries `permission`.
    pub fn permits(&self, permission: u32) -> (permitted: bool)
        ensures
            permitted == self@.permissions.contains(permission),
            permitted == self.permissions@.contains(permission),
    {
        let mut i: usize = 0;
        while i < self.permissions.len()
            invariant
                i <= self.permissions@.len(),
                forall|j: int| 0 <= j < i ==> self.permissions@[j] != permission,
            decreases self.permissions@.len() - i,
        {
            if self.permissions[i] == permission {
                return true;
            }
            i += 1;
        }
        false
    }
}

/// The keys under which an account keeps its data.
#[derive(Clone, Copy, Debug, PartialEq, Eq)]
pub enum DataKey {
    Owner,
    Nonce,
    SessionKey([u8; 32]),
}

impl DataKey {
    /// The name of the key, as it stands in the ledger.
    pub open spec fn name(self) -> Seq<char> {
        match self {
            DataKey::Owner => "Owner"@,
            DataKey::Nonce => "Nonce"@,
            DataKey::SessionKey(_) => "SessionKey"@,
        }
    }

    /// The name of the key, as it stands in the ledger.
    pub fn symbol(&self) -> (symbol: Symbol)
        ensures
            symbol@ == self.name(),
            *self is Owner ==> symbol@ == "Owner"@,
            *self is Nonce ==> symbol@ == "Nonce"@,
            *self is SessionKey ==> symbol@ == "SessionKey"@,
    {
        proof {
            reveal_strlit("Owner");
            reveal_strlit("Nonce");
            reveal_strlit("SessionKey");
        }
        match self {
            DataKey::Owner => Symbol::known("Owner"),
            DataKey::Nonce => Symbol::known("Nonce"),
            DataKey::SessionKey(_) => Symbol::known("SessionKey"),
        }
    }
}

} // verus!
