use crate::classify::{classify, spec_classify, DeviceType};
use vstd::prelude::*;

verus! {

/// The raw attributes of one native device, read through the native
/// property queries once at enumeration time and carried as plain values.
#[derive(Debug, Clone, Copy, PartialEq, Eq, Structural)]
pub struct DeviceAttrs {
    /// Native device id
    pub device_id: i32,
    /// Vendor-defined family id, unstable across hardware generations
    pub family_id: i32,
    /// Whether the device is builtin, as opposed to an external device
    pub builtin: bool,
    /// Native driver type
    pub driver_type: i32,
    /// Sensor row count
    pub sensor_rows: i32,
    /// Sensor column count
    pub sensor_cols: i32,
    /// Physical sensor width, in hundredths of a centimeter
    pub surface_x: i32,
    /// Physical sensor height, in hundredths of a centimeter
    pub surface_y: i32,
}

/// A recoverable misuse of a device handle.
#[derive(Debug, Clone, Copy, PartialEq, Eq, Structural)]
pub enum MtError {
    /// `listen` was called on a handle that is already running. The live
    /// registration is kept; the call has no side effect.
    AlreadyListening,
}

impl MtError {
    /// A short description of the error.
    pub fn message(&self) -> (m: &'static str)
        ensures
            m@ == "already listening"@,
    {
        "already listening"
    }
}

/// A handle that owns exactly one native multitouch device resource.
///
/// The handle carries the device's classification (computed once at
/// construction and immutable for the resource's lifetime), the running
/// flag that mirrors the native start/stop state, the identity token of
/// the native resource, and the identity of the currently registered
/// handler, if any. Exactly one handle owns a given native resource; the
/// handle is moved, never duplicated.
///
/// The native calls themselves (registration, start, stop, release) are
/// performed by the unverified shell around this crate; each lifecycle
/// method here is the verified transition the shell drives, and its
/// contract says exactly how the handle's state changes.
#[derive(Debug)]
pub struct MTDevice {
    device_type: DeviceType,
    is_running: bool,
    handler: Option<u64>,
    inner: u64,
    attrs: DeviceAttrs,
}

impl MTDevice {
    /// The cached classification of this device.
    pub closed spec fn spec_device_type(self) -> DeviceType {
        self.device_type
    }

    /// Whether the handle is running (event delivery is active).
    pub closed spec fn spec_is_running(self) -> bool {
        self.is_running
    }

    /// The identity of the currently registered handler, if any.
    pub closed spec fn spec_handler(self) -> Option<u64> {
        self.handler
    }

    /// The identity token of the owned native resource.
    pub closed spec fn spec_inner(self) -> u64 {
        self.inner
    }

    /// The raw attributes read at construction time.
    pub closed spec fn spec_attrs(self) -> DeviceAttrs {
        self.attrs
    }

    /// Well-formedness of a handle: the cached device type is exactly the
    /// classification of the stored attributes, and a handle that reports
    /// itself running has a live registered handler.
    pub open spec fn wf(self) -> bool {
        &&& self.spec_device_type() == spec_classify(
            self.spec_attrs().builtin,
            self.spec_attrs().family_id,
        )
        &&& self.spec_is_running() ==> self.spec_handler() is Some
    }

    /// The handle `new` constructs for a native resource and its attributes.
    pub closed spec fn spec_new(inner: u64, attrs: DeviceAttrs) -> MTDevice {
        MTDevice {
            device_type: spec_classify(attrs.builtin, attrs.family_id),
            is_running: false,
            handler: None,
            inner,
            attrs,
        }
    }

    /// The state after a successful `listen`: the handler slot holds the
    /// new handler; the running flag waits for the post-start query.
    pub closed spec fn spec_after_listen(self, handler: u64) -> MTDevice {
        MTDevice { handler: Some(handler), ..self }
    }

    /// What `listen` does to a handle: a running handle is left untouched
    /// and the call is rejected; otherwise the handler is installed.
    pub open spec fn spec_listen(self, handler: u64) -> (MTDevice, Result<(), MtError>) {
        if self.spec_is_running() {
            (self, Err(MtError::AlreadyListening))
        } else {
            (self.spec_after_listen(handler), Ok(()))
        }
    }

    /// The state after the native post-start running query answered
    /// `running`.
    pub closed spec fn spec_after_confirm(self, running: bool) -> MTDevice {
        MTDevice { is_running: running, ..self }
    }

    /// The state after `stop`: the running flag is cleared; the resource
    /// and the registration slot are kept.
    pub closed spec fn spec_after_stop(self) -> MTDevice {
        MTDevice { is_running: false, ..self }
    }

    /// Where the bridge routes this device's events: to the registered
    /// handler while the device is running, nowhere otherwise. After the
    /// native stop call returns, no future invocation occurs, so a stopped
    /// handle has no target.
    pub open spec fn spec_target(self) -> Option<u64> {
        if self.spec_is_running() {
            self.spec_handler()
        } else {
            None
        }
    }

    /// Wrap one native device resource. `inner` is the opaque identity
    /// token of the native resource; `attrs` are its properties as the
    /// native queries reported them. The classification is computed here,
    /// once, and cached for the life of the handle; the handle starts out
    /// stopped, with no handler registered.
    pub fn new(inner: u64, attrs: DeviceAttrs) -> (d: MTDevice)
        ensures
            d == MTDevice::spec_new(inner, attrs),
            d.spec_device_type() == spec_classify(attrs.builtin, attrs.family_id),
            !d.spec_is_running(),
            d.spec_handler() is None,
            d.spec_inner() == inner,
            d.spec_attrs() == attrs,
            d.wf(),
    {
        MTDevice {
            device_type: classify(attrs.builtin, attrs.family_id),
            is_running: false,
            handler: None,
            inner,
            attrs,
        }
    }

    /// Wrap a native device enumeration: one independently owned handle
    /// per entry, in enumeration order. An empty enumeration is valid (no
    /// hardware present) and yields an empty list, not an error.
    pub fn devices(entries: Vec<(u64, DeviceAttrs)>) -> (ds: Vec<MTDevice>)
        ensures
            ds@.len() == entries@.len(),
            forall|i: int|
                0 <= i < entries@.len() ==> ds@[i] == MTDevice::spec_new(
                    entries@[i].0,
                    entries@[i].1,
                ),
    {
        let mut ds: Vec<MTDevice> = Vec::new();
        let mut idx: usize = 0;
        while idx < entries.len()
            invariant
                idx <= entries.len(),
                ds@.len() == idx as int,
                forall|i: int|
                    0 <= i < idx as int ==> ds@[i] == MTDevice::spec_new(
                        entries@[i].0,
                        entries@[i].1,
                    ),
            decreases entries.len() - idx,
        {
            let entry = entries[idx];
            ds.push(MTDevice::new(entry.0, entry.1));
            idx = idx + 1;
        }
        ds
    }

    /// The id of this device.
    pub fn device_id(&self) -> (id: i32)
        ensures
            id == self.spec_attrs().device_id,
    {
        self.attrs.device_id
    }

    /// The vendor-defined family id of this device.
    pub fn family_id(&self) -> (id: i32)
        ensures
            id == self.spec_attrs().family_id,
    {
        self.attrs.family_id
    }

    /// Is this multitouch device built in, as opposed to external?
    pub fn is_builtin(&self) -> (b: bool)
        ensures
            b == self.spec_attrs().builtin,
    {
        self.attrs.builtin
    }

    /// The classification of this device, cached at construction.
    pub fn device_type(&self) -> (t: DeviceType)
        ensures
            t == self.spec_device_type(),
    {
        self.device_type
    }

    /// The native driver type of this device.
    pub fn driver_type(&self) -> (t: i32)
        ensures
            t == self.spec_attrs().driver_type,
    {
        self.attrs.driver_type
    }

    /// The dimensions of the sensor as (rows, columns).
    pub fn sensor_dimensions(&self) -> (d: (i32, i32))
        ensures
            d == (self.spec_attrs().sensor_rows, self.spec_attrs().sensor_cols),
    {
        (self.attrs.sensor_rows, self.attrs.sensor_cols)
    }

    /// The physical size of the sensor as (x, y), in hundredths of a
    /// centimeter — the unit the native query documents; divide by 100 for
    /// centimeters.
    pub fn sensor_surface_dimensions(&self) -> (d: (i32, i32))
        ensures
            d == (self.spec_attrs().surface_x, self.spec_attrs().surface_y),
    {
        (self.attrs.surface_x, self.attrs.surface_y)
    }

    /// Are we listening to this device?
    pub fn is_running(&mut self) -> (r: bool)
        ensures
            *final(self) == *old(self),
            r == old(self).spec_is_running(),
    {
        self.is_running
    }

    /// The identity token of the inner native device resource. Best
    /// avoided unless the shell needs to name the resource directly.
    pub fn inner(&self) -> (t: u64)
        ensures
            t == self.spec_inner(),
    {
        self.inner
    }

    /// Register `handler` — the identity of a boxed, type-erased callable
    /// the shell owns for the life of the registration — as the recipient
    /// of all future touch record batches for this device.
    ///
    /// A handle that is already running rejects the call with
    /// `AlreadyListening` and changes nothing: the native callback slot
    /// holds one context at a time, and silently replacing the live
    /// registration would leak it and break the at-most-one-handler
    /// invariant. On success the handler slot holds the new handler; the
    /// shell must then perform the native registration and start calls and
    /// report the native post-start running query through
    /// [`Self::confirm_started`] — the running flag is never assumed.
    pub fn listen(&mut self, handler: u64) -> (r: Result<(), MtError>)
        ensures
            (*final(self), r) == old(self).spec_listen(handler),
            old(self).spec_is_running() ==> r == Err::<(), MtError>(MtError::AlreadyListening)
                && *final(self) == *old(self),
            !old(self).spec_is_running() ==> r == Ok::<(), MtError>(())
                && final(self).spec_handler() == Some(handler),
            final(self).spec_is_running() == old(self).spec_is_running(),
            final(self).spec_inner() == old(self).spec_inner(),
            final(self).spec_attrs() == old(self).spec_attrs(),
            final(self).spec_device_type() == old(self).spec_device_type(),
            old(self).wf() ==> final(self).wf(),
    {
        if self.is_running {
            Err(MtError::AlreadyListening)
        } else {
            self.handler = Some(handler);
            Ok(())
        }
    }

    /// Record the answer of the native subsystem's own post-start running
    /// query. The running flag mirrors that answer exactly; a start that
    /// did not take leaves the handle stopped. Call this only for a handle
    /// whose registration a successful `listen` just installed.
    pub fn confirm_started(&mut self, running: bool)
        requires
            old(self).spec_handler() is Some,
        ensures
            *final(self) == old(self).spec_after_confirm(running),
            final(self).spec_is_running() == running,
            final(self).spec_handler() == old(self).spec_handler(),
            final(self).spec_inner() == old(self).spec_inner(),
            final(self).spec_attrs() == old(self).spec_attrs(),
            final(self).spec_device_type() == old(self).spec_device_type(),
            old(self).wf() ==> final(self).wf(),
    {
        self.is_running = running;
    }

    /// Stop event delivery. The native resource remains valid and `listen`
    /// may start it again; the call is idempotent when the handle is
    /// already stopped. The shell performs the native stop call; once that
    /// call returns, no future callback invocation occurs for this device,
    /// so the handle's delivery target becomes `None`.
    pub fn stop(&mut self)
        ensures
            *final(self) == old(self).spec_after_stop(),
            !final(self).spec_is_running(),
            final(self).spec_target() is None,
            final(self).spec_handler() == old(self).spec_handler(),
            final(self).spec_inner() == old(self).spec_inner(),
            final(self).spec_attrs() == old(self).spec_attrs(),
            final(self).spec_device_type() == old(self).spec_device_type(),
            old(self).wf() ==> final(self).wf(),
    {
        self.is_running = false;
    }

    /// Stop the handle and surrender the native resource for release.
    ///
    /// Consuming the handle here is what makes the release happen at most
    /// once per handle; the returned token names the one native resource
    /// the shell must now stop and release, in that order — releasing a
    /// still-running resource is a native-level misuse.
    pub fn stop_and_drop(self) -> (t: u64)
        ensures
            t == self.spec_inner(),
    {
        let mut d = self;
        d.stop();
        d.inner
    }

    /// The delivery target of this handle: the registered handler while
    /// running, `None` otherwise.
    pub fn current_target(&self) -> (t: Option<u64>)
        ensures
            t == self.spec_target(),
    {
        if self.is_running {
            self.handler
        } else {
            None
        }
    }
}

/// Every lifecycle transition preserves the handle invariant: installing a
/// handler, recording the post-start query (once a handler is installed),
/// and stopping all leave a well-formed handle well-formed.
pub proof fn lemma_lifecycle_preserves_wf(d: MTDevice, handler: u64, running: bool)
    requires
        d.wf(),
    ensures
        d.spec_listen(handler).0.wf(),
        d.spec_handler() is Some ==> d.spec_after_confirm(running).wf(),
        d.spec_after_stop().wf(),
{
}

/// Calling `listen` twice on the same running handle without an
/// intervening `stop` fails with the re-registration error on the second
/// call and leaves the first registration untouched: the first handler is
/// still the one receiving events.
pub proof fn lemma_second_listen_rejected(d: MTDevice, h1: u64, h2: u64)
    requires
        !d.spec_is_running(),
    ensures
        ({
            let first = d.spec_listen(h1);
            let started = first.0.spec_after_confirm(true);
            let second = started.spec_listen(h2);
            &&& first.1 == Ok::<(), MtError>(())
            &&& second.1 == Err::<(), MtError>(MtError::AlreadyListening)
            &&& second.0 == started
            &&& second.0.spec_target() == Some(h1)
        }),
{
}

/// `stop` followed by `listen` with a new handler routes subsequent events
/// only to the new handler: while stopped the handle has no target, and
/// once the new registration is running the target is exactly the new
/// handler — never the old one.
pub proof fn lemma_stop_then_listen_retargets(d: MTDevice, h1: u64, h2: u64)
    requires
        d.spec_is_running(),
        d.spec_handler() == Some(h1),
        h1 != h2,
    ensures
        ({
            let stopped = d.spec_after_stop();
            let relisten = stopped.spec_listen(h2);
            let started = relisten.0.spec_after_confirm(true);
            &&& stopped.spec_target() is None
            &&& relisten.1 == Ok::<(), MtError>(())
            &&& started.spec_target() == Some(h2)
            &&& started.spec_target() != Some(h1)
        }),
{
}

} // verus!
