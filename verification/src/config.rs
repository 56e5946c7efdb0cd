use crate::errors::BridgeError;
use vstd::prelude::*;

verus! {

/// Global singleton of the core bridge: the fee a publish costs and the
/// fee collector balance as of the last collection (used elsewhere to
/// detect funds sent to the collector from outside).
#[derive(Clone, Copy, Debug)]
pub struct Config {
    /// Lamports owed by the payer for every publish.
    pub message_fee: u64,
    /// The fee collector's balance right after the last collection.
    pub last_lamports: u64,
}

/// Does this account set let the fee step go through? It does whenever no
/// transfer is owed at all, or the payer can cover it.
pub open spec fn fee_ok(config: Config, payer_lamports: u64, fee_collector_lamports: Option<
    u64,
>) -> bool {
    fee_collector_lamports is None || config.message_fee == 0 || payer_lamports
        >= config.message_fee
}

/// The amount the fee step moves from the payer to the collector.
pub open spec fn fee_amount(config: Config, fee_collector_lamports: Option<u64>) -> u64 {
    if fee_collector_lamports is Some && config.message_fee > 0 {
        config.message_fee
    } else {
        0
    }
}

/// How a successful fee step leaves the config and the collector: the
/// fee never changes, the collector (when present) grew by exactly the
/// moved amount, and a collection that moved anything recorded the
/// collector's new balance.
pub open spec fn fee_applied(
    config0: Config,
    collector0: Option<u64>,
    config1: Config,
    collector1: Option<u64>,
) -> bool {
    let moved = fee_amount(config0, collector0);
    &&& config1.message_fee == config0.message_fee
    &&& (match (collector0, collector1) {
        (Some(before), Some(after)) => after == before + moved,
        (None, None) => true,
        _ => false,
    })
    &&& (if moved > 0 {
        config1.last_lamports == collector0->0 + moved
    } else {
        config1 == config0
    })
}

/// Take the configured message fee from the payer.
///
/// With no fee collector supplied, or a fee of zero, this is a no-op and
/// never an error. Otherwise exactly `message_fee` lamports move from the
/// payer to the collector and the config records the collector's new
/// balance.
pub fn collect_fee(
    config: &mut Config,
    payer_lamports: &mut u64,
    fee_collector_lamports: &mut Option<u64>,
) -> (r: Result<(), BridgeError>)
    requires
        (*old(fee_collector_lamports)) matches Some(c) ==> c + old(config).message_fee
            <= u64::MAX,
    ensures
        r is Ok <==> fee_ok(*old(config), *old(payer_lamports), *old(fee_collector_lamports)),
        r is Err ==> r == Err::<(), BridgeError>(BridgeError::InsufficientFunds)
            && *final(config) == *old(config) && *final(payer_lamports) == *old(payer_lamports)
            && *final(fee_collector_lamports) == *old(fee_collector_lamports),
        r is Ok ==> *final(payer_lamports) == *old(payer_lamports) - fee_amount(
            *old(config),
            *old(fee_collector_lamports),
        ) && fee_applied(
            *old(config),
            *old(fee_collector_lamports),
            *final(config),
            *final(fee_collector_lamports),
        ),
{
    let fee = config.message_fee;
    match *fee_collector_lamports {
        None => Ok(()),
        Some(collector) => {
            if fee == 0 {
                Ok(())
            } else if *payer_lamports < fee {
                Err(BridgeError::InsufficientFunds)
            } else {
                *payer_lamports = *payer_lamports - fee;
                let after = collector + fee;
                *fee_collector_lamports = Some(after);
                config.last_lamports = after;
                Ok(())
            }
        },
    }
}

} // verus!
