use vstd::prelude::*;

use crate::bus::I2cBus;
use crate::bus::InputPin;

verus! {

/// The error code a `SimBus` reports for a transaction that no
/// programmed rule answers.
pub const SIM_NO_ANSWER: u8 = 0xFF;

/// One programmed response of a simulated bus: a write-then-read
/// transaction addressed to `address` with request byte `request` yields
/// `response` — a response byte, or a transport error code.
#[derive(Copy, Clone, Debug)]
pub struct SimRule {
    pub address: u8,
    pub request: u8,
    pub response: Result<u8, u8>,
}

/// The response of the first rule in `rules` that covers the transaction
/// at `address` with request byte `request`; `Err(SIM_NO_ANSWER)` when no
/// rule does.
pub open spec fn spec_rule_response(rules: Seq<SimRule>, address: u8, request: u8) -> Result<
    u8,
    u8,
>
    decreases rules.len(),
{
    if rules.len() == 0 {
        Err(SIM_NO_ANSWER)
    } else if rules[0].address == address && rules[0].request == request {
        rules[0].response
    } else {
        spec_rule_response(rules.drop_first(), address, request)
    }
}

/// A simulated bus transport for exercising the driver without hardware:
/// it answers write-then-read transactions from a programmed rule table
/// (first matching rule wins) and reports `SIM_NO_ANSWER` where no rule
/// matches. Writes and bare reads are accepted and ignored.
pub struct SimBus {
    rules: Vec<SimRule>,
}

impl SimBus {
    /// The programmed rule table, in programming order.
    pub closed spec fn spec_rules(&self) -> Seq<SimRule> {
        self.rules@
    }

    /// A simulated bus with no programmed responses: every transaction
    /// fails with `SIM_NO_ANSWER`.
    pub fn new() -> (r: SimBus)
        ensures
            r.spec_rules() == Seq::<SimRule>::empty(),
    {
        SimBus { rules: Vec::new() }
    }

    /// Program one more response: a transaction at `address` with request
    /// byte `request` yields `response`, unless an earlier rule already
    /// covers that transaction.
    pub fn program(&mut self, address: u8, request: u8, response: Result<u8, u8>)
        ensures
            final(self).spec_rules() == old(self).spec_rules().push(
                SimRule { address, request, response },
            ),
    {
        self.rules.push(SimRule { address, request, response });
    }
}

impl I2cBus for SimBus {
    type BusError = u8;

    /// The outcome the rule table programs for this transaction.
    open spec fn transaction_outcome(&self, address: u8, request: u8) -> Result<u8, u8> {
        spec_rule_response(self.spec_rules(), address, request)
    }

    fn write(&mut self, address: u8, bytes: &[u8]) -> Result<(), u8> {
        Ok(())
    }

    fn read(&mut self, address: u8, buffer: &mut Vec<u8>) -> Result<(), u8> {
        Ok(())
    }

    fn write_then_read(&mut self, address: u8, request: u8) -> (r: Result<u8, u8>) {
        let mut i: usize = 0;
        proof {
            assert(self.rules@.skip(0) =~= self.rules@);
        }
        while i < self.rules.len()
            invariant
                i <= self.rules.len(),
                spec_rule_response(self.rules@, address, request) == spec_rule_response(
                    self.rules@.skip(i as int),
                    address,
                    request,
                ),
            decreases self.rules.len() - i,
        {
            let rule = self.rules[i];
            if rule.address == address && rule.request == request {
                proof {
                    assert(self.rules@.skip(i as int)[0] == self.rules@[i as int]);
                }
                return rule.response;
            }
            proof {
                assert(self.rules@.skip(i as int)[0] == self.rules@[i as int]);
                assert(self.rules@.skip(i as int).drop_first() =~= self.rules@.skip(i as int + 1));
            }
            i = i + 1;
        }
        proof {
            assert(self.rules@.skip(i as int).len() == 0);
        }
        Err(SIM_NO_ANSWER)
    }
}

/// A simulated interrupt pin with a fixed level.
#[derive(Copy, Clone, Debug)]
pub struct SimPin {
    pub high: bool,
}

impl InputPin for SimPin {
    type PinError = u8;

    fn is_high(&self) -> Result<bool, u8> {
        Ok(self.high)
    }

    fn is_low(&self) -> Result<bool, u8> {
        Ok(!self.high)
    }
}

} // verus!
