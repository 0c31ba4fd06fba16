//! The bridge facade: the one component the rest of the system calls.
//!
//! Each operation acquires the runtime (booting it exactly once), an
//! execution context for the calling thread, and the call token, then
//! marshals its arguments, invokes the entry point its descriptor names, and
//! unmarshals the result. Every internal failure terminates in the
//! operation's documented sentinel or fallback value: nothing above the
//! facade ever observes a fault, and the call token is released on every
//! exit path.

use crate::attach::AttachmentManager;
use crate::marshal::{
    marshal_float_array, marshal_int32, marshal_text, marshal_uint64, unmarshal_boolean,
    unmarshal_float_pair, unmarshal_int64, unmarshal_text, BridgeFault, MarshaledValue,
};
use crate::runtime::RuntimeHost;
use crate::serializer::CallSerializer;
use crate::units::{
    array_statistic, prime_check, sequence_value, spec_is_prime, spec_sequence_value,
    spec_upper_text, statistic_post, transform_text,
};
use vstd::prelude::*;

verus! {

/// The four operations the bridge exposes.
#[derive(Clone, Copy, PartialEq, Eq, Structural)]
pub enum UnitOp {
    /// Integer sequence computation.
    Sequence,
    /// Primality test.
    Predicate,
    /// Numeric-array statistic.
    Statistic,
    /// String transform.
    Transform,
}

/// Which of the four named units the runtime's classpath actually holds.
/// A deployment with all four present is the normal case; a missing unit
/// makes every call to it fail with its sentinel.
#[derive(Clone, Copy, PartialEq, Eq, Structural)]
pub struct EntryTable {
    pub sequence: bool,
    pub predicate: bool,
    pub statistic: bool,
    pub transform: bool,
}

/// Whether the unit an operation needs is present on the classpath.
pub open spec fn unit_available(table: EntryTable, op: UnitOp) -> bool {
    match op {
        UnitOp::Sequence => table.sequence,
        UnitOp::Predicate => table.predicate,
        UnitOp::Statistic => table.statistic,
        UnitOp::Transform => table.transform,
    }
}

impl EntryTable {
    /// The table of a complete deployment: all four units present.
    pub fn full() -> (t: EntryTable)
        ensures
            forall|op: UnitOp| unit_available(t, op),
    {
        EntryTable { sequence: true, predicate: true, statistic: true, transform: true }
    }

    /// Consult the table: resolve an operation's descriptor against the
    /// loaded units by simple class name.
    pub fn resolve(&self, op: UnitOp) -> (found: bool)
        ensures
            found == unit_available(*self, op),
    {
        match op {
            UnitOp::Sequence => self.sequence,
            UnitOp::Predicate => self.predicate,
            UnitOp::Statistic => self.statistic,
            UnitOp::Transform => self.transform,
        }
    }
}

/// The hard-coded entry-point descriptor of an operation: class name, method
/// name, and type signature. The bridge knows exactly these four triples;
/// there is no discovery mechanism.
pub fn descriptor(op: UnitOp) -> (d: (&'static str, &'static str, &'static str))
    ensures
        op is Sequence ==> d.0@ == "Fibonacci"@ && d.1@ == "fibonacci"@ && d.2@ == "(I)J"@,
        op is Predicate ==> d.0@ == "PrimeChecker"@ && d.1@ == "isPrime"@ && d.2@ == "(J)Z"@,
        op is Statistic ==> d.0@ == "ArrayStats"@ && d.1@ == "median"@ && d.2@ == "([D)[D"@,
        op is Transform ==> d.0@ == "StringOps"@ && d.1@ == "toUpperCase"@ && d.2@
            == "(Ljava/lang/String;)Ljava/lang/String;"@,
{
    match op {
        UnitOp::Sequence => ("Fibonacci", "fibonacci", "(I)J"),
        UnitOp::Predicate => ("PrimeChecker", "isPrime", "(J)Z"),
        UnitOp::Statistic => ("ArrayStats", "median", "([D)[D"),
        UnitOp::Transform => ("StringOps", "toUpperCase", "(Ljava/lang/String;)Ljava/lang/String;"),
    }
}

/// The embedded-runtime bridge. One per process; the embedding application
/// keeps it behind a one-time-initialization primitive and a lock, and the
/// contracts describe the serialized history of calls this yields.
pub struct Bridge {
    /// Owner of the single runtime instance.
    pub host: RuntimeHost,
    /// Attachment state of the calling thread.
    pub attachment: AttachmentManager,
    /// The process-wide call token.
    pub serializer: CallSerializer,
    /// The units the deployment's classpath holds.
    pub table: EntryTable,
}

impl Bridge {
    /// Between calls the host invariant holds and no call is in flight.
    pub open spec fn wf(self) -> bool {
        &&& self.host.wf()
        &&& !self.serializer.in_flight
    }

    /// What one whole facade call does to the bridge state: the host takes
    /// one boot step, the thread attaches if the runtime came up and
    /// attachment is possible, the call token is back, and the deployment
    /// (configuration validity and loaded units) is unchanged.
    pub open spec fn facade_step(pre: Bridge, post: Bridge) -> bool {
        &&& RuntimeHost::boot_step(pre.host, post.host, pre.host.up_after_boot())
        &&& post.attachment.attach_ok == pre.attachment.attach_ok
        &&& post.attachment.attached == (pre.attachment.attached || (pre.host.up_after_boot()
            && pre.attachment.attach_ok))
        &&& !post.serializer.in_flight
        &&& post.table == pre.table
    }

    /// A call to `op` issued now encounters no fault: the runtime is up (or
    /// comes up on this first call), the calling thread holds or can obtain
    /// an execution context, and the unit is on the classpath.
    pub open spec fn fault_free(self, op: UnitOp) -> bool {
        &&& self.host.up_after_boot()
        &&& (self.attachment.attached || self.attachment.attach_ok)
        &&& unit_available(self.table, op)
    }

    /// A bridge for a deployment described by the three environment facts:
    /// whether the runtime configuration is valid, whether threads can
    /// attach, and which units the classpath holds.
    pub fn new(config_ok: bool, attach_ok: bool, table: EntryTable) -> (b: Bridge)
        ensures
            b.wf(),
            b.host.state is Dormant,
            b.host.boots == 0,
            b.host.config_ok == config_ok,
            !b.attachment.attached,
            b.attachment.attach_ok == attach_ok,
            b.table == table,
    {
        Bridge {
            host: RuntimeHost::new(config_ok),
            attachment: AttachmentManager::new(attach_ok),
            serializer: CallSerializer::new(),
            table,
        }
    }

    /// A bridge over a healthy deployment with all four units present.
    pub fn standard() -> (b: Bridge)
        ensures
            b.wf(),
            b.host.state is Dormant,
            b.host.boots == 0,
            b.host.config_ok,
            !b.attachment.attached,
            b.attachment.attach_ok,
            forall|op: UnitOp| unit_available(b.table, op),
    {
        let table = EntryTable::full();
        Bridge::new(true, true, table)
    }

    /// What the dispatched entry point returns for each operation and
    /// argument shape, once the call is serialized: a missing unit is a
    /// missing entry point, a wrong argument shape is a signature mismatch,
    /// and otherwise the unit's documented result.
    pub open spec fn invoke_post(
        table: EntryTable,
        op: UnitOp,
        arg: MarshaledValue,
        r: Result<MarshaledValue, BridgeFault>,
    ) -> bool {
        if !unit_available(table, op) {
            r == Err::<MarshaledValue, BridgeFault>(BridgeFault::MissingEntryPoint)
        } else {
            match op {
                UnitOp::Sequence => match arg {
                    MarshaledValue::Int32(n) => r matches Ok(MarshaledValue::Int64(v))
                        && v == spec_sequence_value(n as int),
                    _ => r == Err::<MarshaledValue, BridgeFault>(BridgeFault::SignatureMismatch),
                },
                UnitOp::Predicate => match arg {
                    MarshaledValue::Int64(v) => r matches Ok(MarshaledValue::Boolean(p)) && p == (v
                        >= 0 && spec_is_prime(v as u64)),
                    _ => r == Err::<MarshaledValue, BridgeFault>(BridgeFault::SignatureMismatch),
                },
                UnitOp::Statistic => match arg {
                    MarshaledValue::Float64Array(a) => r matches Ok(
                        MarshaledValue::Float64Pair(lo, hi),
                    ) && statistic_post(a@, lo, hi),
                    _ => r == Err::<MarshaledValue, BridgeFault>(BridgeFault::SignatureMismatch),
                },
                UnitOp::Transform => match arg {
                    MarshaledValue::Text(t) => r matches Ok(MarshaledValue::Text(out)) && out@
                        == spec_upper_text(t@),
                    _ => r == Err::<MarshaledValue, BridgeFault>(BridgeFault::SignatureMismatch),
                },
            }
        }
    }

    /// Run one call under the call token: acquire the token, resolve the
    /// descriptor, dispatch to the unit, and release the token on every exit
    /// path. Callers must already hold a booted runtime and a live context;
    /// no caller may bypass this serialization point.
    fn invoke_serialized(&mut self, op: UnitOp, arg: MarshaledValue) -> (r: Result<
        MarshaledValue,
        BridgeFault,
    >)
        requires
            old(self).wf(),
            old(self).host.state is Ready,
            old(self).attachment.attached,
        ensures
            final(self).wf(),
            final(self).host == old(self).host,
            final(self).attachment == old(self).attachment,
            final(self).table == old(self).table,
            !final(self).serializer.in_flight,
            Bridge::invoke_post(old(self).table, op, arg, r),
    {
        let granted = self.serializer.try_acquire();
        assert(granted);
        if !self.table.resolve(op) {
            self.serializer.release();
            return Err(BridgeFault::MissingEntryPoint);
        }
        let outcome: Result<MarshaledValue, BridgeFault> = match op {
            UnitOp::Sequence => match arg {
                MarshaledValue::Int32(n) => Ok(MarshaledValue::Int64(sequence_value(n))),
                _ => Err(BridgeFault::SignatureMismatch),
            },
            UnitOp::Predicate => match arg {
                MarshaledValue::Int64(v) => {
                    if v >= 0 {
                        Ok(MarshaledValue::Boolean(prime_check(v as u64)))
                    } else {
                        Ok(MarshaledValue::Boolean(false))
                    }
                },
                _ => Err(BridgeFault::SignatureMismatch),
            },
            UnitOp::Statistic => match arg {
                MarshaledValue::Float64Array(a) => {
                    let (lo, hi) = array_statistic(&a);
                    Ok(MarshaledValue::Float64Pair(lo, hi))
                },
                _ => Err(BridgeFault::SignatureMismatch),
            },
            UnitOp::Transform => match arg {
                MarshaledValue::Text(t) => Ok(MarshaledValue::Text(transform_text(t.as_str()))),
                _ => Err(BridgeFault::SignatureMismatch),
            },
        };
        self.serializer.release();
        outcome
    }

    /// The inner fallible call every facade operation makes: boot the
    /// runtime if needed, attach the thread, then run the serialized
    /// invocation. Exactly one fault is reported for each way the call can
    /// fail; the facade maps it to the operation's sentinel.
    pub fn call(&mut self, op: UnitOp, arg: MarshaledValue) -> (r: Result<
        MarshaledValue,
        BridgeFault,
    >)
        requires
            old(self).wf(),
        ensures
            final(self).wf(),
            Bridge::facade_step(*old(self), *final(self)),
            !old(self).host.up_after_boot() ==> r == Err::<MarshaledValue, BridgeFault>(
                BridgeFault::InitFailed,
            ),
            old(self).host.up_after_boot() && !(old(self).attachment.attached || old(
                self,
            ).attachment.attach_ok) ==> r == Err::<MarshaledValue, BridgeFault>(
                BridgeFault::AttachFailed,
            ),
            old(self).host.up_after_boot() && (old(self).attachment.attached || old(
                self,
            ).attachment.attach_ok) ==> Bridge::invoke_post(old(self).table, op, arg, r),
    {
        let ready = self.host.ensure_booted();
        if !ready {
            return Err(BridgeFault::InitFailed);
        }
        let ctx = self.attachment.ensure_attached();
        if !ctx {
            return Err(BridgeFault::AttachFailed);
        }
        self.invoke_serialized(op, arg)
    }

    /// Single initialization at the facade: however many facade calls run
    /// against a fresh bridge, only the first one boots the runtime; each
    /// later call observes the boot already performed and leaves the host
    /// untouched.
    pub proof fn lemma_facade_single_initialization(b0: Bridge, b1: Bridge, b2: Bridge)
        requires
            b0.wf(),
            b0.host.state is Dormant,
            Bridge::facade_step(b0, b1),
            Bridge::facade_step(b1, b2),
        ensures
            b1.host.boots == 1,
            b2.host == b1.host,
    {
    }

    /// Sequence operation: the recurrence value at `n`. An out-of-range
    /// index and every internal fault yield the sentinel `0`.
    pub fn java_fibonacci(&mut self, n: i32) -> (r: i64)
        requires
            old(self).wf(),
        ensures
            final(self).wf(),
            Bridge::facade_step(*old(self), *final(self)),
            old(self).fault_free(UnitOp::Sequence) ==> r == spec_sequence_value(n as int),
            !old(self).fault_free(UnitOp::Sequence) ==> r == 0,
    {
        let arg = marshal_int32(n);
        match self.call(UnitOp::Sequence, arg) {
            Ok(m) => match unmarshal_int64(m) {
                Some(v) => v,
                None => 0,
            },
            Err(_) => 0,
        }
    }

    /// Predicate operation: whether `num` is prime. A value outside the
    /// runtime's signed 64-bit range cannot be marshaled, and every fault
    /// yields the sentinel `false`.
    pub fn java_is_prime(&mut self, num: u64) -> (r: bool)
        requires
            old(self).wf(),
        ensures
            final(self).wf(),
            Bridge::facade_step(*old(self), *final(self)),
            old(self).fault_free(UnitOp::Predicate) && num <= i64::MAX ==> r == spec_is_prime(num),
            !(old(self).fault_free(UnitOp::Predicate) && num <= i64::MAX) ==> r == false,
    {
        let arg = match marshal_uint64(num) {
            Ok(a) => a,
            Err(_) => {
                // Marshaling fails only after the call has acquired its
                // execution context; the invocation itself is skipped.
                let ready = self.host.ensure_booted();
                if ready {
                    self.attachment.ensure_attached();
                }
                return false;
            },
        };
        match self.call(UnitOp::Predicate, arg) {
            Ok(m) => match unmarshal_boolean(m) {
                Some(v) => v,
                None => false,
            },
            Err(_) => false,
        }
    }

    /// Array-statistic operation, on bit patterns of 64-bit floating-point
    /// values: the two middle order statistics of the input, whose midpoint
    /// is the median. Every fault yields the zero pair, whose midpoint is
    /// the sentinel `0.0`; an empty input is permitted and yields the same
    /// defined zero pair.
    pub fn java_array_stats(&mut self, values: Vec<u64>) -> (r: (u64, u64))
        requires
            old(self).wf(),
        ensures
            final(self).wf(),
            Bridge::facade_step(*old(self), *final(self)),
            old(self).fault_free(UnitOp::Statistic) ==> statistic_post(values@, r.0, r.1),
            !old(self).fault_free(UnitOp::Statistic) ==> r == (
                crate::FLOAT_ZERO_BITS,
                crate::FLOAT_ZERO_BITS,
            ),
    {
        let arg = marshal_float_array(&values);
        match self.call(UnitOp::Statistic, arg) {
            Ok(m) => match unmarshal_float_pair(m) {
                Some(pair) => pair,
                None => (crate::FLOAT_ZERO_BITS, crate::FLOAT_ZERO_BITS),
            },
            Err(_) => (crate::FLOAT_ZERO_BITS, crate::FLOAT_ZERO_BITS),
        }
    }

    /// Text-transform operation: the ASCII-uppercase image of the input. On
    /// any fault the bridge fails soft: the output is exactly the original
    /// input, not an empty value.
    pub fn java_string_ops(&mut self, text: String) -> (r: String)
        requires
            old(self).wf(),
        ensures
            final(self).wf(),
            Bridge::facade_step(*old(self), *final(self)),
            old(self).fault_free(UnitOp::Transform) ==> r@ == spec_upper_text(text@),
            !old(self).fault_free(UnitOp::Transform) ==> r@ == text@,
    {
        let fallback = text.clone();
        let arg = marshal_text(text);
        match self.call(UnitOp::Transform, arg) {
            Ok(m) => match unmarshal_text(m) {
                Some(s) => s,
                None => fallback,
            },
            Err(_) => fallback,
        }
    }
}

} // verus!
