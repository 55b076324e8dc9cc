//! Session and transaction kinds, and the options that travel with them.

use vstd::prelude::*;

verus! {

/// What a session is opened for.
#[derive(Clone, Copy, Debug, PartialEq, Eq, Structural)]
pub enum SessionType {
    Data,
    Schema,
}

/// What a transaction is opened for.
#[derive(Clone, Copy, Debug, PartialEq, Eq, Structural)]
pub enum TransactionType {
    Read,
    Write,
}

impl SessionType {
    /// The number that stands for the session type on the wire.
    pub open spec fn wire_number(self) -> int {
        match self {
            SessionType::Data => 0,
            SessionType::Schema => 1,
        }
    }

    /// The number that stands for the session type on the wire.
    pub fn to_proto(self) -> (number: i32)
        ensures
            number == self.wire_number(),
    {
        match self {
            SessionType::Data => 0,
            SessionType::Schema => 1,
        }
    }
}

impl TransactionType {
    /// The number that stands for the transaction type on the wire.
    pub open spec fn wire_number(self) -> int {
        match self {
            TransactionType::Read => 0,
            TransactionType::Write => 1,
        }
    }

    /// The number that stands for the transaction type on the wire.
    pub fn to_proto(self) -> (number: i32)
        ensures
            number == self.wire_number(),
    {
        match self {
            TransactionType::Read => 0,
            TransactionType::Write => 1,
        }
    }
}

/// The options of a session, a transaction or a query. Each one is
/// optional: what is absent is left to the server. Timeouts are in
/// milliseconds.
#[derive(Clone, Copy, Debug, PartialEq, Eq)]
pub struct Options {
    pub infer: Option<bool>,
    pub trace_inference: Option<bool>,
    pub explain: Option<bool>,
    pub parallel: Option<bool>,
    pub prefetch: Option<bool>,
    pub prefetch_size: Option<i32>,
    pub session_idle_timeout: Option<u128>,
    pub transaction_timeout: Option<u128>,
    pub schema_lock_acquire_timeout: Option<u128>,
    pub read_any_replica: Option<bool>,
}

/// The options as they are sent: a field is present on the wire exactly
/// when it is `Some` here, and timeouts are 32-bit numbers of milliseconds.
#[derive(Clone, Copy, Debug, PartialEq, Eq)]
pub struct OptionsProto {
    pub infer: Option<bool>,
    pub trace_inference: Option<bool>,
    pub explain: Option<bool>,
    pub parallel: Option<bool>,
    pub prefetch_size: Option<i32>,
    pub prefetch: Option<bool>,
    pub session_idle_timeout_millis: Option<i32>,
    pub transaction_timeout_millis: Option<i32>,
    pub schema_lock_acquire_timeout_millis: Option<i32>,
    pub read_any_replica: Option<bool>,
}

/// A timeout as it is sent: its milliseconds, cut to the 32 bits of the
/// wire's field.
pub open spec fn wire_millis(timeout: Option<u128>) -> Option<i32> {
    match timeout {
        Some(millis) => Some(millis as i32),
        None => None,
    }
}

fn to_wire_millis(timeout: Option<u128>) -> (wire: Option<i32>)
    ensures
        wire == wire_millis(timeout),
{
    match timeout {
        Some(millis) => Some(#[verifier::truncate] (millis as i32)),
        None => None,
    }
}

impl Options {
    /// The options as they are sent.
    pub open spec fn wire(self) -> OptionsProto {
        OptionsProto {
            infer: self.infer,
            trace_inference: self.trace_inference,
            explain: self.explain,
            parallel: self.parallel,
            prefetch_size: self.prefetch_size,
            prefetch: self.prefetch,
            session_idle_timeout_millis: wire_millis(self.session_idle_timeout),
            transaction_timeout_millis: wire_millis(self.transaction_timeout),
            schema_lock_acquire_timeout_millis: wire_millis(self.schema_lock_acquire_timeout),
            read_any_replica: self.read_any_replica,
        }
    }

    /// No option set.
    pub fn new() -> (options: Options)
        ensures
            options == (Options {
                infer: None,
                trace_inference: None,
                explain: None,
                parallel: None,
                prefetch: None,
                prefetch_size: None,
                session_idle_timeout: None,
                transaction_timeout: None,
                schema_lock_acquire_timeout: None,
                read_any_replica: None,
            }),
    {
        Options {
            infer: None,
            trace_inference: None,
            explain: None,
            parallel: None,
            prefetch: None,
            prefetch_size: None,
            session_idle_timeout: None,
            transaction_timeout: None,
            schema_lock_acquire_timeout: None,
            read_any_replica: None,
        }
    }

    /// The options as they are sent: each recognised key present exactly
    /// when it is set, timeouts in milliseconds.
    pub fn into_proto(self) -> (proto: OptionsProto)
        ensures
            proto == self.wire(),
    {
        OptionsProto {
            infer: self.infer,
            trace_inference: self.trace_inference,
            explain: self.explain,
            parallel: self.parallel,
            prefetch_size: self.prefetch_size,
            prefetch: self.prefetch,
            session_idle_timeout_millis: to_wire_millis(self.session_idle_timeout),
            transaction_timeout_millis: to_wire_millis(self.transaction_timeout),
            schema_lock_acquire_timeout_millis: to_wire_millis(self.schema_lock_acquire_timeout),
            read_any_replica: self.read_any_replica,
        }
    }

    /// These options with inference switched on or off.
    pub fn infer(self, infer: bool) -> (options: Options)
        ensures
            options == (Options { infer: Some(infer), ..self }),
    {
        Options { infer: Some(infer), ..self }
    }

    /// These options with the tracing of inference switched on or off.
    pub fn trace_inference(self, trace_inference: bool) -> (options: Options)
        ensures
            options == (Options { trace_inference: Some(trace_inference), ..self }),
    {
        Options { trace_inference: Some(trace_inference), ..self }
    }

    /// These options with explanations switched on or off.
    pub fn explain(self, explain: bool) -> (options: Options)
        ensures
            options == (Options { explain: Some(explain), ..self }),
    {
        Options { explain: Some(explain), ..self }
    }

    /// These options with parallel execution switched on or off.
    pub fn parallel(self, parallel: bool) -> (options: Options)
        ensures
            options == (Options { parallel: Some(parallel), ..self }),
    {
        Options { parallel: Some(parallel), ..self }
    }

    /// These options with prefetching switched on or off.
    pub fn prefetch(self, prefetch: bool) -> (options: Options)
        ensures
            options == (Options { prefetch: Some(prefetch), ..self }),
    {
        Options { prefetch: Some(prefetch), ..self }
    }

    /// These options with the given number of answers to prefetch.
    pub fn prefetch_size(self, prefetch_size: i32) -> (options: Options)
        ensures
            options == (Options { prefetch_size: Some(prefetch_size), ..self }),
    {
        Options { prefetch_size: Some(prefetch_size), ..self }
    }

    /// These options with the given idle timeout of a session, in
    /// milliseconds.
    pub fn session_idle_timeout(self, millis: u128) -> (options: Options)
        ensures
            options == (Options { session_idle_timeout: Some(millis), ..self }),
    {
        Options { session_idle_timeout: Some(millis), ..self }
    }

    /// These options with the given timeout of a transaction, in
    /// milliseconds.
    pub fn transaction_timeout(self, millis: u128) -> (options: Options)
        ensures
            options == (Options { transaction_timeout: Some(millis), ..self }),
    {
        Options { transaction_timeout: Some(millis), ..self }
    }

    /// These options with the given timeout for acquiring the schema lock,
    /// in milliseconds.
    pub fn schema_lock_acquire_timeout(self, millis: u128) -> (options: Options)
        ensures
            options == (Options { schema_lock_acquire_timeout: Some(millis), ..self }),
    {
        Options { schema_lock_acquire_timeout: Some(millis), ..self }
    }

    /// These options with reads from any replica allowed or not.
    pub fn read_any_replica(self, read_any_replica: bool) -> (options: Options)
        ensures
            options == (Options { read_any_replica: Some(read_any_replica), ..self }),
    {
        Options { read_any_replica: Some(read_any_replica), ..self }
    }
}

/// A timeout that fits the wire's field is sent as it is.
pub proof fn lemma_wire_millis_of_small_timeout(millis: u128)
    requires
        millis <= 0x7fff_ffff,
    ensures
        wire_millis(Some(millis)) == Some(millis as i32),
        (millis as i32) as int == millis as int,
{
    assert((millis as i32) as int == millis as int) by (bit_vector)
        requires
            millis <= 0x7fff_ffff,
    ;
}

} // verus!
