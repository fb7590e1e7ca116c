use vstd::prelude::*;

use crate::error::Error;
use crate::flags::VERIFY_ALL;

verus! {

/// One call of the native verifier: the spent output and the spending
/// transaction, borrowed as they are, with the scalar arguments in the
/// widths of the engine's interface. The length of each buffer fits in
/// a `u32`, as the engine takes it.
pub struct VerifyRequest<'a> {
    pub spent_output: &'a [u8],
    pub amount: u64,
    pub spending_transaction: &'a [u8],
    pub input_index: u32,
    pub flags: u32,
}

/// What a [`VerifyRequest`] asks of the engine, as plain values.
pub struct RequestView {
    pub spent_output: Seq<u8>,
    pub amount: u64,
    pub spending_transaction: Seq<u8>,
    pub input_index: u32,
    pub flags: u32,
}

impl<'a> View for VerifyRequest<'a> {
    type V = RequestView;

    open spec fn view(&self) -> RequestView {
        RequestView {
            spent_output: self.spent_output@,
            amount: self.amount,
            spending_transaction: self.spending_transaction@,
            input_index: self.input_index,
            flags: self.flags,
        }
    }
}

impl<'a> VerifyRequest<'a> {
    /// The buffers' lengths fit the engine's 32-bit length arguments.
    pub open spec fn wf(&self) -> bool {
        &&& self.spent_output@.len() <= u32::MAX
        &&& self.spending_transaction@.len() <= u32::MAX
    }

    /// Length of the serialized spent output, as the engine takes it.
    pub fn spent_output_len(&self) -> (r: u32)
        requires
            self.wf(),
        ensures
            r == self.spent_output@.len(),
    {
        self.spent_output.len() as u32
    }

    /// Length of the serialized spending transaction, as the engine takes it.
    pub fn spending_transaction_len(&self) -> (r: u32)
        requires
            self.wf(),
        ensures
            r == self.spending_transaction@.len(),
    {
        self.spending_transaction.len() as u32
    }
}

/// Whether the arguments of a verification can be handed to the engine:
/// both buffers' lengths and the input index fit in a `u32`.
pub open spec fn engine_accepts(
    spent_output: Seq<u8>,
    spending_transaction: Seq<u8>,
    input_index: usize,
) -> bool {
    &&& spent_output.len() <= u32::MAX
    &&& spending_transaction.len() <= u32::MAX
    &&& input_index <= u32::MAX
}

/// The engine call that verifies input `input_index` of `spending_transaction`,
/// which spends `spent_output` worth `amount`, under the rules in `flags`.
pub open spec fn request_of(
    spent_output: Seq<u8>,
    amount: u64,
    spending_transaction: Seq<u8>,
    input_index: usize,
    flags: u32,
) -> RequestView {
    RequestView {
        spent_output,
        amount,
        spending_transaction,
        input_index: input_index as u32,
        flags,
    }
}

/// Prepare the verification of a single spend (input) of a Bitcoin
/// transaction, under every consensus rule.
///  * spent_output: the transaction output being spent, serialized in
///    Bitcoin's wire format
///  * amount: the spent output's amount in satoshis
///  * spending_transaction: the spending transaction, serialized in Bitcoin's
///    wire format
///  * input_index: index of the input within spending_transaction
pub fn verify<'a>(
    spent_output: &'a [u8],
    amount: u64,
    spending_transaction: &'a [u8],
    input_index: usize,
) -> (r: VerifyRequest<'a>)
    requires
        engine_accepts(spent_output@, spending_transaction@, input_index),
    ensures
        r.wf(),
        r@ == request_of(spent_output@, amount, spending_transaction@, input_index, VERIFY_ALL),
{
    verify_with_flags(spent_output, amount, spending_transaction, input_index, VERIFY_ALL)
}

/// Same as [`verify`], with flags that turn past soft fork rules on or off.
pub fn verify_with_flags<'a>(
    spent_output: &'a [u8],
    amount: u64,
    spending_transaction: &'a [u8],
    input_index: usize,
    flags: u32,
) -> (r: VerifyRequest<'a>)
    requires
        engine_accepts(spent_output@, spending_transaction@, input_index),
    ensures
        r.wf(),
        r@ == request_of(spent_output@, amount, spending_transaction@, input_index, flags),
{
    VerifyRequest {
        spent_output,
        amount,
        spending_transaction,
        input_index: input_index as u32,
        flags,
    }
}

/// The engine's verdict on a call: its status is 1 on a valid spend;
/// any other status is a failure, whose reason the engine wrote in `error`.
pub open spec fn verdict(status: i32, error: Error) -> Result<(), Error> {
    if status == 1 {
        Ok(())
    } else {
        Err(error)
    }
}

/// Turn the engine's status and the error it wrote into a result.
pub fn outcome(status: i32, error: Error) -> (r: Result<(), Error>)
    ensures
        r == verdict(status, error),
        r is Ok <==> status == 1,
{
    if status != 1 {
        Err(error)
    } else {
        Ok(())
    }
}

} // verus!
