//! The lifecycle of the sensor binding: which sensors to enable or disable on
//! the platform's event queue, and when the queue is torn down.
//!
//! The binding performs no platform call itself. Each transition returns the
//! commands that its owner carries out, in order, on the native queue and the
//! native sensor handles; enabling and disabling are idempotent, and the queue
//! is destroyed at most once.
use vstd::prelude::*;
use crate::event::SensorType;
use crate::series::SAMPLING_PERIOD_US;

verus! {

/// Transitions of the hosting application's lifecycle.
#[derive(Clone, Copy, Debug, PartialEq, Eq, Structural)]
pub enum AppLifecycle {
    Idle,
    Running,
    WillSuspend,
    Suspended,
    WillResume,
}

/// A platform call that the owner of the native queue carries out.
#[derive(Clone, Copy, Debug, PartialEq, Eq, Structural)]
pub enum SensorCommand {
    /// Enable the sensor on the queue and request the given sampling period.
    Enable { sensor_type: SensorType, sampling_period_us: i32 },
    Disable { sensor_type: SensorType },
    /// Destroy the event queue; nothing may use it afterwards.
    DestroyQueue,
}

#[derive(Clone, Copy, Debug, PartialEq, Eq, Structural)]
pub enum BindingState {
    /// No queue yet: nothing can be enabled or polled.
    Unattached,
    /// The queue exists and every tracked sensor has a handle.
    Attached { enabled: bool },
    /// The queue has been destroyed.
    Released,
}

/// The sensor types that the binding resolves, in this order.
pub open spec fn tracked_types() -> Seq<SensorType> {
    seq![
        SensorType::Accelerometer,
        SensorType::Gyroscope,
        SensorType::Rotation,
        SensorType::Compass,
        SensorType::Gravity,
    ]
}

pub open spec fn enable_all() -> Seq<SensorCommand> {
    tracked_types().map_values(
        |t: SensorType| SensorCommand::Enable { sensor_type: t, sampling_period_us: SAMPLING_PERIOD_US },
    )
}

pub open spec fn disable_all() -> Seq<SensorCommand> {
    tracked_types().map_values(|t: SensorType| SensorCommand::Disable { sensor_type: t })
}

/// State and commands of an enable request.
pub open spec fn on_enable(st: BindingState) -> (BindingState, Seq<SensorCommand>) {
    match st {
        BindingState::Attached { enabled: false } => (
            BindingState::Attached { enabled: true },
            enable_all(),
        ),
        _ => (st, Seq::empty()),
    }
}

/// State and commands of a disable request.
pub open spec fn on_disable(st: BindingState) -> (BindingState, Seq<SensorCommand>) {
    match st {
        BindingState::Attached { enabled: true } => (
            BindingState::Attached { enabled: false },
            disable_all(),
        ),
        _ => (st, Seq::empty()),
    }
}

/// Whether a lifecycle transition brings the sensors up (otherwise it takes
/// them down).
pub open spec fn wants_enabled(event: AppLifecycle) -> bool {
    event == AppLifecycle::Running || event == AppLifecycle::WillResume
}

/// State and commands of a release: sensors still enabled are disabled, then
/// the queue is destroyed.
pub open spec fn on_release(st: BindingState) -> (BindingState, Seq<SensorCommand>) {
    match st {
        BindingState::Attached { enabled } => (
            BindingState::Released,
            (if enabled {
                disable_all()
            } else {
                Seq::empty()
            }).push(SensorCommand::DestroyQueue),
        ),
        _ => (BindingState::Released, Seq::empty()),
    }
}

pub struct Sensors {
    state: BindingState,
}

pub fn tracked_sensor_types() -> (r: Vec<SensorType>)
    ensures
        r@ == tracked_types(),
{
    let mut r: Vec<SensorType> = Vec::new();
    r.push(SensorType::Accelerometer);
    r.push(SensorType::Gyroscope);
    r.push(SensorType::Rotation);
    r.push(SensorType::Compass);
    r.push(SensorType::Gravity);
    assert(r@ =~= tracked_types());
    r
}

fn commands_for_all(enable: bool) -> (r: Vec<SensorCommand>)
    ensures
        r@ == (if enable {
            enable_all()
        } else {
            disable_all()
        }),
{
    let types = tracked_sensor_types();
    let mut r: Vec<SensorCommand> = Vec::new();
    let mut i: usize = 0;
    while i < types.len()
        invariant
            types@ == tracked_types(),
            i <= types@.len(),
            r@ == (if enable {
                enable_all()
            } else {
                disable_all()
            }).take(i as int),
        decreases types@.len() - i,
    {
        let t = types[i];
        if enable {
            r.push(SensorCommand::Enable { sensor_type: t, sampling_period_us: SAMPLING_PERIOD_US });
        } else {
            r.push(SensorCommand::Disable { sensor_type: t });
        }
        proof {
            let all = if enable {
                enable_all()
            } else {
                disable_all()
            };
            assert(all.take(i + 1) =~= all.take(i as int).push(all[i as int]));
        }
        i = i + 1;
    }
    proof {
        let all = if enable {
            enable_all()
        } else {
            disable_all()
        };
        assert(all.take(i as int) =~= all);
    }
    r
}

impl Sensors {
    pub closed spec fn view(&self) -> BindingState {
        self.state
    }

    /// Records that the queue was created and every tracked sensor resolved;
    /// only a binding that was never attached can be.
    pub fn attach(&mut self) -> (r: bool)
        ensures
            r == (old(self)@ == BindingState::Unattached),
            final(self)@ == (if r {
                BindingState::Attached { enabled: false }
            } else {
                old(self)@
            }),
    {
        match self.state {
            BindingState::Unattached => {
                self.state = BindingState::Attached { enabled: false };
                true
            },
            _ => false,
        }
    }

    /// Whether the queue exists, so that it can be polled.
    pub fn is_attached(&self) -> (r: bool)
        ensures
            r == (self@ is Attached),
    {
        match self.state {
            BindingState::Attached { .. } => true,
            _ => false,
        }
    }

    pub fn enable(&mut self) -> (r: Vec<SensorCommand>)
        ensures
            (final(self)@, r@) == on_enable(old(self)@),
    {
        match self.state {
            BindingState::Attached { enabled: false } => {
                self.state = BindingState::Attached { enabled: true };
                commands_for_all(true)
            },
            _ => Vec::new(),
        }
    }

    pub fn disable(&mut self) -> (r: Vec<SensorCommand>)
        ensures
            (final(self)@, r@) == on_disable(old(self)@),
    {
        match self.state {
            BindingState::Attached { enabled: true } => {
                self.state = BindingState::Attached { enabled: false };
                commands_for_all(false)
            },
            _ => Vec::new(),
        }
    }

    /// Idle, will-suspend and suspended take the sensors down; running and
    /// will-resume bring them up.
    pub fn handle_lifetime(&mut self, event: AppLifecycle) -> (r: Vec<SensorCommand>)
        ensures
            (final(self)@, r@) == (if wants_enabled(event) {
                on_enable(old(self)@)
            } else {
                on_disable(old(self)@)
            }),
    {
        match event {
            AppLifecycle::Idle => self.disable(),
            AppLifecycle::Running => self.enable(),
            AppLifecycle::WillSuspend => self.disable(),
            AppLifecycle::Suspended => self.disable(),
            AppLifecycle::WillResume => self.enable(),
        }
    }

    /// Tears the binding down at shutdown.
    pub fn release(&mut self) -> (r: Vec<SensorCommand>)
        ensures
            (final(self)@, r@) == on_release(old(self)@),
    {
        let mut r = match self.state {
            BindingState::Attached { enabled: true } => commands_for_all(false),
            _ => Vec::new(),
        };
        match self.state {
            BindingState::Attached { .. } => {
                r.push(SensorCommand::DestroyQueue);
            },
            _ => {},
        }
        self.state = BindingState::Released;
        r
    }
}

impl Default for Sensors {
    fn default() -> (r: Sensors)
        ensures
            r@ == BindingState::Unattached,
    {
        Sensors { state: BindingState::Unattached }
    }
}

/// Enabling and disabling are idempotent: a second request of the same kind
/// changes nothing and issues no command. In particular, disabling a binding
/// that was never enabled issues nothing.
pub proof fn lemma_idempotent(st: BindingState)
    ensures
        on_enable(on_enable(st).0) == (on_enable(st).0, Seq::<SensorCommand>::empty()),
        on_disable(on_disable(st).0) == (on_disable(st).0, Seq::<SensorCommand>::empty()),
        !(st matches BindingState::Attached { enabled: true }) ==> on_disable(st) == (
            st,
            Seq::<SensorCommand>::empty(),
        ),
{
}

/// The queue is destroyed at most once, and never commanded after that.
pub proof fn lemma_released_once(st: BindingState)
    ensures
        on_release(on_release(st).0).1 == Seq::<SensorCommand>::empty(),
        on_enable(on_release(st).0).1 == Seq::<SensorCommand>::empty(),
        on_disable(on_release(st).0).1 == Seq::<SensorCommand>::empty(),
{
}

} // verus!
