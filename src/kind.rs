use vstd::prelude::*;

verus! {

/// Identifier of an algorithm, mode and key size.
#[allow(non_camel_case_types)]
#[derive(Clone, Copy, Debug, PartialEq, Eq, Structural)]
pub enum CipherKind {
    NONE,
    CHACHA20,
    AES_128_GCM,
    AES_256_GCM,
    CHACHA20_POLY1305,
}

/// Which of the three transforms a kind uses.
#[derive(Clone, Copy, Debug, PartialEq, Eq, Structural)]
pub enum CipherCategory {
    Plain,
    Stream,
    Aead,
}

impl CipherKind {
    pub open spec fn spec_category(self) -> CipherCategory {
        match self {
            CipherKind::NONE => CipherCategory::Plain,
            CipherKind::CHACHA20 => CipherCategory::Stream,
            CipherKind::AES_128_GCM => CipherCategory::Aead,
            CipherKind::AES_256_GCM => CipherCategory::Aead,
            CipherKind::CHACHA20_POLY1305 => CipherCategory::Aead,
        }
    }

    pub open spec fn spec_key_len(self) -> nat {
        match self {
            CipherKind::NONE => 0,
            CipherKind::CHACHA20 => 32,
            CipherKind::AES_128_GCM => 16,
            CipherKind::AES_256_GCM => 32,
            CipherKind::CHACHA20_POLY1305 => 32,
        }
    }

    pub open spec fn spec_iv_or_salt_len(self) -> nat {
        match self {
            CipherKind::NONE => 0,
            CipherKind::CHACHA20 => 12,
            CipherKind::AES_128_GCM => 16,
            CipherKind::AES_256_GCM => 32,
            CipherKind::CHACHA20_POLY1305 => 32,
        }
    }

    pub open spec fn spec_tag_len(self) -> nat {
        match self {
            CipherKind::AES_128_GCM => 16,
            CipherKind::AES_256_GCM => 16,
            CipherKind::CHACHA20_POLY1305 => 16,
            _ => 0,
        }
    }

    /// The category of this kind.
    pub fn category(&self) -> (r: CipherCategory)
        ensures
            r == self.spec_category(),
    {
        match self {
            CipherKind::NONE => CipherCategory::Plain,
            CipherKind::CHACHA20 => CipherCategory::Stream,
            CipherKind::AES_128_GCM => CipherCategory::Aead,
            CipherKind::AES_256_GCM => CipherCategory::Aead,
            CipherKind::CHACHA20_POLY1305 => CipherCategory::Aead,
        }
    }

    /// Length of the key that this kind takes.
    pub fn key_len(&self) -> (r: usize)
        ensures
            r == self.spec_key_len(),
    {
        match self {
            CipherKind::NONE => 0,
            CipherKind::CHACHA20 => 32,
            CipherKind::AES_128_GCM => 16,
            CipherKind::AES_256_GCM => 32,
            CipherKind::CHACHA20_POLY1305 => 32,
        }
    }

    /// Length of the IV (stream) or salt (AEAD) that this kind takes.
    pub fn iv_or_salt_len(&self) -> (r: usize)
        ensures
            r == self.spec_iv_or_salt_len(),
    {
        match self {
            CipherKind::NONE => 0,
            CipherKind::CHACHA20 => 12,
            CipherKind::AES_128_GCM => 16,
            CipherKind::AES_256_GCM => 32,
            CipherKind::CHACHA20_POLY1305 => 32,
        }
    }

    /// Length of the authentication tag appended by this kind.
    pub fn tag_len(&self) -> (r: usize)
        ensures
            r == self.spec_tag_len(),
    {
        match self {
            CipherKind::AES_128_GCM => 16,
            CipherKind::AES_256_GCM => 16,
            CipherKind::CHACHA20_POLY1305 => 16,
            _ => 0,
        }
    }
}

/// The identifiers that this build supports, in order.
pub open spec fn catalog() -> Seq<Seq<char>> {
    seq!["plain"@, "none"@, "chacha20-ietf"@, "aes-128-gcm"@, "aes-256-gcm"@, "chacha20-ietf-poly1305"@]
}

/// The kind that an identifier names, if any.
pub open spec fn kind_of_name(s: Seq<char>) -> Option<CipherKind> {
    if s == "plain"@ || s == "none"@ {
        Some(CipherKind::NONE)
    } else if s == "chacha20-ietf"@ {
        Some(CipherKind::CHACHA20)
    } else if s == "aes-128-gcm"@ {
        Some(CipherKind::AES_128_GCM)
    } else if s == "aes-256-gcm"@ {
        Some(CipherKind::AES_256_GCM)
    } else if s == "chacha20-ietf-poly1305"@ {
        Some(CipherKind::CHACHA20_POLY1305)
    } else {
        None
    }
}

/// Get available ciphers in string representation.
///
/// Commonly used for checking users' configuration input.
pub fn available_ciphers() -> (r: Vec<&'static str>)
    ensures
        r@.len() == catalog().len(),
        forall|i: int| 0 <= i < r@.len() ==> #[trigger] r@[i]@ == catalog()[i],
{
    let r: Vec<&'static str> = vec!["plain", "none", "chacha20-ietf", "aes-128-gcm", "aes-256-gcm", "chacha20-ietf-poly1305"];
    proof {
        reveal_strlit("plain");
        reveal_strlit("none");
        reveal_strlit("chacha20-ietf");
        reveal_strlit("aes-128-gcm");
        reveal_strlit("aes-256-gcm");
        reveal_strlit("chacha20-ietf-poly1305");
    }
    r
}

/// The identifier of the catalog that names a kind.
pub open spec fn name_of(k: CipherKind) -> Seq<char> {
    match k {
        CipherKind::NONE => "none"@,
        CipherKind::CHACHA20 => "chacha20-ietf"@,
        CipherKind::AES_128_GCM => "aes-128-gcm"@,
        CipherKind::AES_256_GCM => "aes-256-gcm"@,
        CipherKind::CHACHA20_POLY1305 => "chacha20-ietf-poly1305"@,
    }
}

/// Every identifier of the catalog names a kind, and every kind is named by
/// an identifier of the catalog.
pub proof fn lemma_catalog_matches_kinds()
    ensures
        forall|i: int| 0 <= i < catalog().len() ==> #[trigger] kind_of_name(catalog()[i]).is_some(),
        forall|k: CipherKind|
            catalog().contains(#[trigger] name_of(k)) && kind_of_name(name_of(k)) == Some(k),
{
    reveal_strlit("plain");
    reveal_strlit("none");
    reveal_strlit("chacha20-ietf");
    reveal_strlit("aes-128-gcm");
    reveal_strlit("aes-256-gcm");
    reveal_strlit("chacha20-ietf-poly1305");
    assert forall|k: CipherKind|
        catalog().contains(#[trigger] name_of(k)) && kind_of_name(name_of(k)) == Some(k) by {
        match k {
            CipherKind::NONE => assert(catalog()[1] == name_of(k)),
            CipherKind::CHACHA20 => assert(catalog()[2] == name_of(k)),
            CipherKind::AES_128_GCM => assert(catalog()[3] == name_of(k)),
            CipherKind::AES_256_GCM => {
                assert("aes-256-gcm"@[4] != "aes-128-gcm"@[4]);
                assert(catalog()[4] == name_of(k));
            },
            CipherKind::CHACHA20_POLY1305 => assert(catalog()[5] == name_of(k)),
        }
    }
}

} // verus!
