//! What the client has to know of the engine.
use vstd::prelude::*;

verus! {

/// Whether the connection to the engine is encrypted.
#[derive(Clone, Copy, Debug, PartialEq, Eq, Structural)]
pub enum TlsStrategy {
    Plaintext,
    Tls,
}

impl TlsStrategy {
    /// The name under which the strategy is set.
    pub open spec fn named(self) -> Seq<char> {
        match self {
            TlsStrategy::Plaintext => "none"@,
            TlsStrategy::Tls => "tls"@,
        }
    }

    /// The name under which the strategy is set.
    pub fn name(&self) -> (name: &'static str)
        ensures
            name@ == self.named(),
    {
        match *self {
            TlsStrategy::Plaintext => "none",
            TlsStrategy::Tls => "tls",
        }
    }
}

/// Strategies of the same name are the same, so that handing on the name hands on the
/// strategy.
pub proof fn law_names_tell_strategies_apart(a: TlsStrategy, b: TlsStrategy)
    requires
        a.named() == b.named(),
    ensures
        a == b,
{
    reveal_strlit("none");
    reveal_strlit("tls");
    assert("none"@.len() == 4 && "tls"@.len() == 3);
}

/// What the client has to know of the engine.
#[derive(Debug)]
pub struct HatchetConfig {
    pub server_url: String,
    pub grpc_address: String,
    pub api_token: String,
    pub tls_strategy: TlsStrategy,
    pub tenant_id: String,
}

/// Encryption is switched off under the name `none` and on under the name `tls`.
pub proof fn law_strategies_have_their_documented_names(strategy: TlsStrategy)
    ensures
        strategy.named() == "none"@ <==> strategy == TlsStrategy::Plaintext,
        strategy.named() == "tls"@ <==> strategy == TlsStrategy::Tls,
{
    reveal_strlit("none");
    reveal_strlit("tls");
    assert("none"@.len() == 4 && "tls"@.len() == 3);
}

} // verus!
