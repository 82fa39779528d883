//! The trade: the parameters that name it, its record, and the rules of its
//! life from deposit to close.
use sha2::Digest;
use vstd::prelude::*;

use crate::error::CustomError;
use crate::fee::fee_or_zero;
use crate::instructions::deposit::DepositArgs;
use crate::pubkey::{bytes32_are_zero, zero_bytes, Pubkey};

verus! {

/// The parameters that a trade's id is computed from.
#[derive(Clone, Debug)]
pub struct TradeInput {
    /// The session id, as a 256-bit number in big-endian bytes.
    pub session_id: [u8; 32],
    /// The solver's address on the coordinating chain.
    pub solver: [u8; 20],
    /// Where the trade comes from, where it goes and how much it moves.
    pub trade_info: TradeInfo,
}

/// The origin, the destination and the amount of a trade.
#[derive(Clone, Debug)]
pub struct TradeInfo {
    /// The amount that enters the trade, as a 256-bit number in big-endian
    /// bytes.
    pub amount_in: [u8; 32],
    /// The origin: the user's address, the network id and the asset, each as
    /// text in bytes.
    pub from_chain: [Vec<u8>; 3],
    /// The destination: the user's address, the network id and the asset.
    pub to_chain: [Vec<u8>; 3],
}

/// The three byte strings that describe one side of a trade.
pub open spec fn chain_bytes(chain: [Vec<u8>; 3]) -> Seq<Seq<u8>> {
    Seq::new(3, |i: int| chain[i]@)
}

/// How many bytes the three strings of one side of a trade hold together.
pub open spec fn chain_len(chain: [Vec<u8>; 3]) -> nat {
    chain[0]@.len() + chain[1]@.len() + chain[2]@.len()
}

/// The bytes that `ethabi::encode` returns for the three values
/// `(uint256 session_id, address solver, (uint256 amount_in, bytes[3]
/// from_chain, bytes[3] to_chain))`, where each `uint256` is read from 32
/// big-endian bytes and the address is the 20 bytes of the solver.
pub uninterp spec fn abi_encoding(
    session_id: Seq<u8>,
    solver: Seq<u8>,
    amount_in: Seq<u8>,
    from_chain: Seq<Seq<u8>>,
    to_chain: Seq<Seq<u8>>,
) -> Seq<u8>;

/// The SHA-256 digest of `data`, as `sha2::Sha256` computes it.
pub uninterp spec fn sha256_digest(data: Seq<u8>) -> Seq<u8>;

/// Feeds `data` to a fresh `sha2::Sha256` hasher and finalizes it. The
/// contract gives the 32 bytes that come out their name, `sha256_digest`.
#[verifier::external_body]
fn sha256(data: &Vec<u8>) -> (digest: [u8; 32])
    ensures
        digest@ == sha256_digest(data@),
{
    let mut hasher = sha2::Sha256::new();
    hasher.update(data);
    let result = hasher.finalize();
    let mut digest = [0u8; 32];
    digest.copy_from_slice(&result);
    digest
}

impl TradeInput {
    /// The most bytes that the six strings of the two sides may hold
    /// together.
    pub const MAX_CHAIN_BYTES: u32 = 0x7fff_ffff;

    /// The canonical encoding of the parameters.
    pub open spec fn encoding(&self) -> Seq<u8> {
        abi_encoding(
            self.session_id@,
            self.solver@,
            self.trade_info.amount_in@,
            chain_bytes(self.trade_info.from_chain),
            chain_bytes(self.trade_info.to_chain),
        )
    }

    /// The id of the trade: the SHA-256 digest of the canonical encoding.
    pub open spec fn trade_id(&self) -> Seq<u8> {
        sha256_digest(self.encoding())
    }

    /// Whether the parameters can be encoded: the encoder counts the bytes
    /// of the encoding in 32 bits, so the six strings of the two sides may
    /// hold no more than `MAX_CHAIN_BYTES` together.
    pub open spec fn encodable(&self) -> bool {
        chain_len(self.trade_info.from_chain) + chain_len(self.trade_info.to_chain)
            <= TradeInput::MAX_CHAIN_BYTES
    }

    /// Tells whether the parameters can be encoded.
    pub fn is_encodable(&self) -> (encodable: bool)
        ensures
            encodable == self.encodable(),
    {
        let from_chain = &self.trade_info.from_chain;
        let to_chain = &self.trade_info.to_chain;
        let from_len: u128 = from_chain[0].len() as u128 + from_chain[1].len() as u128
            + from_chain[2].len() as u128;
        let to_len: u128 = to_chain[0].len() as u128 + to_chain[1].len() as u128
            + to_chain[2].len() as u128;
        from_len + to_len <= TradeInput::MAX_CHAIN_BYTES as u128
    }

    /// Builds the token tree `(uint256, address, (uint256, bytes[3],
    /// bytes[3]))` from the parameters and calls `ethabi::encode` on it. The
    /// contract gives the bytes that come out their name, `abi_encoding`.
    /// The call adds up the lengths of the encoding in `u32`; the contract
    /// leaves out the parameters on which that sum would not fit.
    #[verifier::external_body]
    fn encode_trade_input(&self) -> (encoded: Vec<u8>)
        requires
            self.encodable(),
        ensures
            encoded@ == abi_encoding(
                self.session_id@,
                self.solver@,
                self.trade_info.amount_in@,
                chain_bytes(self.trade_info.from_chain),
                chain_bytes(self.trade_info.to_chain),
            ),
    {
        let info = &self.trade_info;
        let from_chain = info.from_chain.iter().map(|b| ethabi::Token::Bytes(b.clone())).collect();
        let to_chain = info.to_chain.iter().map(|b| ethabi::Token::Bytes(b.clone())).collect();
        ethabi::encode(&[
            ethabi::Token::Uint(ethabi::ethereum_types::U256::from_big_endian(&self.session_id)),
            ethabi::Token::Address(ethabi::ethereum_types::H160::from_slice(&self.solver)),
            ethabi::Token::Tuple(vec![
                ethabi::Token::Uint(ethabi::ethereum_types::U256::from_big_endian(&info.amount_in)),
                ethabi::Token::FixedArray(from_chain),
                ethabi::Token::FixedArray(to_chain),
            ]),
        ])
    }

    /// Computes the id of the trade that the parameters name. The
    /// parameters must be encodable.
    pub fn calculate_trade_id(&self) -> (id: [u8; 32])
        requires
            self.encodable(),
        ensures
            id@ == self.trade_id(),
    {
        let encoded = self.encode_trade_input();
        sha256(&encoded)
    }
}

/// Where a trade stands. A trade starts as `Deposited` and moves once, to
/// `Settled` or to `Claimed`, and never back.
#[derive(Clone, Copy, Debug, PartialEq, Eq, Structural)]
pub enum TradeStatus {
    /// The funds are in the vault and the trade is open.
    Deposited,
    /// The settlement authority released the funds to the market maker.
    Settled,
    /// The deadline passed and the funds went back to the refund address.
    Claimed,
}

impl Default for TradeStatus {
    fn default() -> (status: TradeStatus)
        ensures
            status == TradeStatus::Deposited,
    {
        TradeStatus::Deposited
    }
}

/// The record of one trade: created by the deposit, changed by fee setting,
/// settlement and claim, destroyed by the close.
#[derive(Clone, Copy, Debug, PartialEq, Eq)]
pub struct TradeDetail {
    /// The id of the trade.
    pub trade_id: [u8; 32],
    /// The depositor, who gets back what the trade's accounts reserve.
    pub user_pubkey: Pubkey,
    /// The asset of the trade; `None` is the native currency.
    pub token: Option<Pubkey>,
    /// The amount deposited.
    pub amount: u64,
    /// The settlement deadline, in unix seconds. Up to it the trade can be
    /// settled, after it only claimed.
    pub timeout: i64,
    /// The key that may settle the trade.
    pub mpc_pubkey: Pubkey,
    /// The one-time key that must sign the settlement too.
    pub user_ephemeral_pubkey: Pubkey,
    /// The address that a claim pays.
    pub refund_pubkey: Pubkey,
    /// The fee taken from the amount at settlement, once it is set.
    pub total_fee: Option<u64>,
    /// Where the trade stands.
    pub status: TradeStatus,
    /// The market maker that the settlement paid.
    pub settled_pmm: Option<Pubkey>,
    /// Room kept for later fields.
    pub _reserve: [u128; 8],
}

impl Default for TradeDetail {
    /// A blank record, as the ledger hands it out before the deposit fills
    /// it.
    fn default() -> (trade: TradeDetail)
        ensures
            trade.is_blank(),
            trade.wf(),
    {
        let trade = TradeDetail {
            trade_id: [0u8; 32],
            user_pubkey: Pubkey { bytes: [0u8; 32] },
            token: None,
            amount: 0,
            timeout: 0,
            mpc_pubkey: Pubkey { bytes: [0u8; 32] },
            user_ephemeral_pubkey: Pubkey { bytes: [0u8; 32] },
            refund_pubkey: Pubkey { bytes: [0u8; 32] },
            total_fee: None,
            status: TradeStatus::Deposited,
            settled_pmm: None,
            _reserve: [0u128; 8],
        };
        assert(trade.trade_id@ =~= zero_bytes(32));
        assert(trade.user_pubkey@ =~= zero_bytes(32));
        assert(trade.mpc_pubkey@ =~= zero_bytes(32));
        assert(trade.user_ephemeral_pubkey@ =~= zero_bytes(32));
        assert(trade.refund_pubkey@ =~= zero_bytes(32));
        assert(trade._reserve@ =~= Seq::new(8, |i: int| 0u128));
        trade
    }
}

impl TradeDetail {
    /// Whether the record is blank: every key and the id are zero bytes,
    /// nothing is set, and the trade counts as open.
    pub open spec fn is_blank(&self) -> bool {
        &&& self.trade_id@ == zero_bytes(32)
        &&& self.user_pubkey@ == zero_bytes(32)
        &&& self.token is None
        &&& self.amount == 0
        &&& self.timeout == 0
        &&& self.mpc_pubkey@ == zero_bytes(32)
        &&& self.user_ephemeral_pubkey@ == zero_bytes(32)
        &&& self.refund_pubkey@ == zero_bytes(32)
        &&& self.total_fee is None
        &&& self.status == TradeStatus::Deposited
        &&& self.settled_pmm is None
        &&& self._reserve@ == Seq::new(8, |i: int| 0u128)
    }

    /// Tells whether the record is blank, as the ledger hands it out for a
    /// new trade.
    pub fn is_new(&self) -> (blank: bool)
        ensures
            blank == self.is_blank(),
    {
        if !(bytes32_are_zero(&self.trade_id) && bytes32_are_zero(&self.user_pubkey.bytes)
            && bytes32_are_zero(&self.mpc_pubkey.bytes) && bytes32_are_zero(
            &self.user_ephemeral_pubkey.bytes,
        ) && bytes32_are_zero(&self.refund_pubkey.bytes)) {
            return false;
        }
        if self.token.is_some() || self.total_fee.is_some() || self.settled_pmm.is_some()
            || self.amount != 0 || self.timeout != 0 {
            return false;
        }
        match self.status {
            TradeStatus::Deposited => {},
            _ => {
                return false;
            },
        }
        let mut i: usize = 0;
        while i < 8
            invariant
                i <= 8,
                forall|j: int| 0 <= j < i ==> self._reserve@[j] == 0,
            decreases 8 - i,
        {
            if self._reserve[i] != 0 {
                assert(Seq::new(8, |k: int| 0u128)[i as int] == 0);
                return false;
            }
            i += 1;
        }
        assert(self._reserve@ =~= Seq::new(8, |k: int| 0u128));
        true
    }

    /// The fee, once set, is no more than the amount.
    pub open spec fn wf(&self) -> bool {
        match self.total_fee {
            Some(fee) => fee <= self.amount,
            None => true,
        }
    }

    /// The fee that a settlement takes: the fee that was set, else nothing.
    pub open spec fn fee(&self) -> u64 {
        fee_or_zero(self.total_fee)
    }

    /// The record that a deposit writes over `self`: the trade is open, no
    /// fee is set, and what the deposit does not name stays.
    pub open spec fn deposited(
        &self,
        deposit_args: DepositArgs,
        amount: u64,
        token: Option<Pubkey>,
        user_pubkey: Pubkey,
        user_ephemeral_pubkey: Pubkey,
    ) -> TradeDetail {
        TradeDetail {
            trade_id: deposit_args.trade_id,
            user_pubkey,
            token,
            amount,
            timeout: deposit_args.data.timeout,
            mpc_pubkey: deposit_args.data.mpc_pubkey,
            user_ephemeral_pubkey,
            refund_pubkey: deposit_args.data.refund_pubkey,
            total_fee: None,
            status: TradeStatus::Deposited,
            settled_pmm: self.settled_pmm,
            _reserve: self._reserve,
        }
    }

    /// Whether the trade can be claimed at `current_timestamp`: only after
    /// the deadline, and only while it is open. The deadline is looked at
    /// first.
    pub open spec fn claim_check(&self, current_timestamp: i64) -> Result<(), CustomError> {
        if current_timestamp <= self.timeout {
            Err(CustomError::ClaimNotAvailable)
        } else if self.status != TradeStatus::Deposited {
            Err(CustomError::InvalidTradeStatus)
        } else {
            Ok(())
        }
    }

    /// Whether the trade can be settled at `current_timestamp`: only up to
    /// the deadline, and only while it is open. The deadline is looked at
    /// first.
    pub open spec fn settlement_check(&self, current_timestamp: i64) -> Result<(), CustomError> {
        if current_timestamp > self.timeout {
            Err(CustomError::TimeOut)
        } else if self.status != TradeStatus::Deposited {
            Err(CustomError::InvalidTradeStatus)
        } else {
            Ok(())
        }
    }

    /// Whether the trade's record can be closed at `current_timestamp`: an
    /// open trade never, a claimed trade always, a settled trade by its
    /// settlement authority always and by anyone else once
    /// `close_wait_duration` has passed since the deadline.
    pub open spec fn close_check(
        &self,
        current_timestamp: u64,
        close_wait_duration: u64,
        is_mpc: bool,
    ) -> Result<(), CustomError> {
        match self.status {
            TradeStatus::Deposited => Err(CustomError::InvalidTradeStatus),
            TradeStatus::Claimed => Ok(()),
            TradeStatus::Settled => if is_mpc {
                Ok(())
            } else if current_timestamp <= self.timeout + close_wait_duration {
                Err(CustomError::CloseNotAvailable)
            } else {
                Ok(())
            },
        }
    }

    /// Fills the record at deposit.
    pub fn assign_value(
        &mut self,
        deposit_args: &DepositArgs,
        amount: u64,
        token: Option<Pubkey>,
        user_pubkey: Pubkey,
        user_ephemeral_pubkey: Pubkey,
    ) -> (r: Result<(), CustomError>)
        ensures
            r == Ok::<(), CustomError>(()),
            *final(self) == old(self).deposited(
                *deposit_args,
                amount,
                token,
                user_pubkey,
                user_ephemeral_pubkey,
            ),
            final(self).wf(),
    {
        self.trade_id = deposit_args.trade_id;
        self.amount = amount;
        self.token = token;
        self.timeout = deposit_args.data.timeout;
        self.mpc_pubkey = deposit_args.data.mpc_pubkey;
        self.user_ephemeral_pubkey = user_ephemeral_pubkey;
        self.refund_pubkey = deposit_args.data.refund_pubkey;
        self.user_pubkey = user_pubkey;
        self.total_fee = None;
        self.status = TradeStatus::Deposited;
        Ok(())
    }

    /// Checks that the trade can be claimed at `current_timestamp`.
    pub fn assert_claim(&self, current_timestamp: i64) -> (r: Result<(), CustomError>)
        ensures
            r == self.claim_check(current_timestamp),
    {
        if current_timestamp <= self.timeout {
            return Err(CustomError::ClaimNotAvailable);
        }
        if self.status != TradeStatus::Deposited {
            return Err(CustomError::InvalidTradeStatus);
        }
        Ok(())
    }

    /// Checks that the trade can be settled at `current_timestamp`.
    pub fn assert_settlement(&self, current_timestamp: i64) -> (r: Result<(), CustomError>)
        ensures
            r == self.settlement_check(current_timestamp),
    {
        if current_timestamp > self.timeout {
            return Err(CustomError::TimeOut);
        }
        if self.status != TradeStatus::Deposited {
            return Err(CustomError::InvalidTradeStatus);
        }
        Ok(())
    }

    /// Checks that the trade's record can be closed at `current_timestamp`
    /// by the caller, who is the settlement authority or is not.
    pub fn assert_close_finished_trade(
        &self,
        current_timestamp: u64,
        close_wait_duration: u64,
        is_mpc: bool,
    ) -> (r: Result<(), CustomError>)
        ensures
            r == self.close_check(current_timestamp, close_wait_duration, is_mpc),
    {
        match self.status {
            TradeStatus::Deposited => {
                return Err(CustomError::InvalidTradeStatus);
            },
            TradeStatus::Claimed => {
                return Ok(());
            },
            TradeStatus::Settled => {
                if is_mpc {
                    return Ok(());
                } else {
                    let earliest: i128 = self.timeout as i128 + close_wait_duration as i128;
                    if current_timestamp as i128 <= earliest {
                        return Err(CustomError::CloseNotAvailable);
                    }
                }
            },
        }
        Ok(())
    }
}

/// The vault of one trade: the address that holds the deposited funds from
/// deposit to close. No key signs for it; only the protocol moves its funds.
#[derive(Clone, Copy, Debug, PartialEq, Eq)]
pub struct TradeVault {
}

impl TradeVault {
    /// The seed of a vault's address: the text `vault`, followed by the
    /// trade's id.
    pub const SEED: [u8; 5] = [118, 97, 117, 108, 116];
}

} // verus!
