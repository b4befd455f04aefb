use vstd::prelude::*;
use crate::config::{IfaceConfig, IpIfaceBuilder, effective_name};
use crate::error::{IfaceError, SysOp};
use crate::ifname::{decode_ifr_name, encode_ifr_name, ifr_name_bytes, name_error, name_prefix};
use crate::sys::{iff_no_pi, iff_tun};

verus! {

/// Flags of the interface-creation request: an IP-level device without the
/// packet information header.
pub const TUN_FLAGS: i16 = 0x1001;

/// Where the provisioning of an interface stands.
#[derive(Clone, Copy, Debug, PartialEq, Eq, Structural)]
pub enum Stage {
    /// Waiting for the control device to open.
    Opening,
    /// Waiting for the descriptor to become non-blocking.
    SettingNonBlocking,
    /// Waiting for the interface-creation request.
    Creating,
    /// Waiting for the address assignment.
    Assigning,
    /// Waiting for the interface to come up.
    BringingUp,
    /// The interface is up.
    Finished,
    /// A step failed.
    Failed,
}

/// How the step just asked for came out.
pub enum ProvisionEvent {
    /// The step succeeded.
    Done,
    /// The creation request succeeded and the kernel wrote back this name buffer.
    DeviceCreated(Vec<u8>),
    /// The step's system call failed with this OS error code.
    OsError(i32),
}

/// The next thing to do to provision the interface.
pub enum ProvisionAction {
    /// Open the virtual-interface control device.
    OpenControlDevice,
    /// Switch the opened descriptor to non-blocking mode.
    SetNonBlocking,
    /// Issue the interface-creation request with this name buffer and flags.
    CreateDevice { ifr_name: Vec<u8>, flags: i16 },
    /// Assign this address and prefix length to the named interface.
    AssignIpv4 { name: String, addr: [u8; 4], prefix_len: u8 },
    /// Bring the named interface up.
    BringUp { name: String },
    /// Provisioning is complete; the interface has this name.
    Finished { name: String },
    /// Provisioning failed.
    Failed(IfaceError),
}

/// An event as a mathematical value.
pub ghost enum ProvisionEventView {
    Done,
    DeviceCreated(Seq<u8>),
    OsError(i32),
}

/// An action as a mathematical value.
pub ghost enum ProvisionActionView {
    OpenControlDevice,
    SetNonBlocking,
    CreateDevice { ifr_name: Seq<u8>, flags: i16 },
    AssignIpv4 { name: Seq<char>, addr: [u8; 4], prefix_len: u8 },
    BringUp { name: Seq<char> },
    Finished { name: Seq<char> },
    Failed(IfaceError),
}

impl View for ProvisionEvent {
    type V = ProvisionEventView;

    open spec fn view(&self) -> ProvisionEventView {
        match self {
            ProvisionEvent::Done => ProvisionEventView::Done,
            ProvisionEvent::DeviceCreated(b) => ProvisionEventView::DeviceCreated(b@),
            ProvisionEvent::OsError(c) => ProvisionEventView::OsError(*c),
        }
    }
}

impl View for ProvisionAction {
    type V = ProvisionActionView;

    open spec fn view(&self) -> ProvisionActionView {
        match self {
            ProvisionAction::OpenControlDevice => ProvisionActionView::OpenControlDevice,
            ProvisionAction::SetNonBlocking => ProvisionActionView::SetNonBlocking,
            ProvisionAction::CreateDevice { ifr_name, flags } => ProvisionActionView::CreateDevice {
                ifr_name: ifr_name@,
                flags: *flags,
            },
            ProvisionAction::AssignIpv4 { name, addr, prefix_len } => ProvisionActionView::AssignIpv4 {
                name: name@,
                addr: *addr,
                prefix_len: *prefix_len,
            },
            ProvisionAction::BringUp { name } => ProvisionActionView::BringUp { name: name@ },
            ProvisionAction::Finished { name } => ProvisionActionView::Finished { name: name@ },
            ProvisionAction::Failed(e) => ProvisionActionView::Failed(*e),
        }
    }
}

/// The state of a provisioning as a mathematical value.
pub ghost struct ProvisionState {
    pub stage: Stage,
    pub ifr_name: Seq<u8>,
    pub ipv4: Option<([u8; 4], u8)>,
    pub real_name: Seq<char>,
}

/// The system call made while waiting at a stage.
pub open spec fn op_of(stage: Stage) -> SysOp {
    match stage {
        Stage::Opening => SysOp::OpenControl,
        Stage::SettingNonBlocking => SysOp::SetNonBlocking,
        Stage::Creating => SysOp::CreateDevice,
        Stage::Assigning => SysOp::AssignIpv4,
        _ => SysOp::BringUp,
    }
}

/// The state in which the provisioning of a valid configuration starts.
pub open spec fn initial_state(c: IfaceConfig) -> ProvisionState {
    ProvisionState {
        stage: Stage::Opening,
        ifr_name: ifr_name_bytes(effective_name(c)),
        ipv4: c.ipv4,
        real_name: Seq::empty(),
    }
}

/// The events that a stage can receive: only the creation request reports
/// a name buffer, and a finished or failed provisioning takes none.
pub open spec fn accepts(s: ProvisionState, e: ProvisionEventView) -> bool {
    &&& s.stage != Stage::Finished
    &&& s.stage != Stage::Failed
    &&& (s.stage == Stage::Creating ==> !(e is Done))
    &&& (s.stage != Stage::Creating ==> !(e is DeviceCreated))
}

/// One transition of the provisioning: the steps run strictly in order,
/// the address is assigned only when configured, every later step uses the
/// name the kernel wrote back, and the first failure ends it.
pub open spec fn next(s: ProvisionState, e: ProvisionEventView) -> (
    ProvisionState,
    ProvisionActionView,
) {
    match e {
        ProvisionEventView::OsError(code) => (
            ProvisionState { stage: Stage::Failed, ..s },
            ProvisionActionView::Failed(IfaceError::Os { op: op_of(s.stage), code }),
        ),
        ProvisionEventView::DeviceCreated(buf) => {
            let p = name_prefix(buf);
            if !vstd::utf8::valid_utf8(p) {
                (
                    ProvisionState { stage: Stage::Failed, ..s },
                    ProvisionActionView::Failed(IfaceError::NameNotUtf8),
                )
            } else {
                let name = vstd::utf8::decode_utf8(p);
                match s.ipv4 {
                    Some((addr, prefix_len)) => (
                        ProvisionState { stage: Stage::Assigning, real_name: name, ..s },
                        ProvisionActionView::AssignIpv4 { name, addr, prefix_len },
                    ),
                    None => (
                        ProvisionState { stage: Stage::BringingUp, real_name: name, ..s },
                        ProvisionActionView::BringUp { name },
                    ),
                }
            }
        },
        ProvisionEventView::Done => match s.stage {
            Stage::Opening => (
                ProvisionState { stage: Stage::SettingNonBlocking, ..s },
                ProvisionActionView::SetNonBlocking,
            ),
            Stage::SettingNonBlocking => (
                ProvisionState { stage: Stage::Creating, ..s },
                ProvisionActionView::CreateDevice { ifr_name: s.ifr_name, flags: TUN_FLAGS },
            ),
            Stage::Assigning => (
                ProvisionState { stage: Stage::BringingUp, ..s },
                ProvisionActionView::BringUp { name: s.real_name },
            ),
            _ => (
                ProvisionState { stage: Stage::Finished, ..s },
                ProvisionActionView::Finished { name: s.real_name },
            ),
        },
    }
}

/// The provisioning of one virtual IP interface, as a sequence of system
/// calls that the caller makes on the machine's own thread.
pub struct Provisioner {
    stage: Stage,
    ifr_name: Vec<u8>,
    ipv4: Option<([u8; 4], u8)>,
    real_name: String,
}

impl View for Provisioner {
    type V = ProvisionState;

    closed spec fn view(&self) -> ProvisionState {
        ProvisionState {
            stage: self.stage,
            ifr_name: self.ifr_name@,
            ipv4: self.ipv4,
            real_name: self.real_name@,
        }
    }
}

impl Provisioner {
    /// Validates the configured name and starts the provisioning, whose
    /// first step is to open the control device.
    pub fn start(config: &IpIfaceBuilder) -> (r: Result<(Provisioner, ProvisionAction), IfaceError>)
        ensures
            match name_error(effective_name(config@)) {
                Some(e) => r == Err::<(Provisioner, ProvisionAction), IfaceError>(e),
                None => r matches Ok((p, a)) && p@ == initial_state(config@) && a@
                    == ProvisionActionView::OpenControlDevice,
            },
    {
        let ifr_name = match encode_ifr_name(config.requested_name()) {
            Ok(v) => v,
            Err(e) => {
                return Err(e);
            },
        };
        let p = Provisioner {
            stage: Stage::Opening,
            ifr_name,
            ipv4: config.ipv4_config(),
            real_name: String::new(),
        };
        Ok((p, ProvisionAction::OpenControlDevice))
    }

    /// Where the provisioning stands.
    pub fn stage(&self) -> (r: Stage)
        ensures
            r == self@.stage,
    {
        self.stage
    }

    /// Takes the outcome of the step last asked for and returns the next one.
    pub fn step(&mut self, event: ProvisionEvent) -> (r: ProvisionAction)
        requires
            accepts(old(self)@, event@),
        ensures
            (final(self)@, r@) == next(old(self)@, event@),
    {
        match event {
            ProvisionEvent::OsError(code) => {
                let op = match self.stage {
                    Stage::Opening => SysOp::OpenControl,
                    Stage::SettingNonBlocking => SysOp::SetNonBlocking,
                    Stage::Creating => SysOp::CreateDevice,
                    Stage::Assigning => SysOp::AssignIpv4,
                    _ => SysOp::BringUp,
                };
                self.stage = Stage::Failed;
                ProvisionAction::Failed(IfaceError::Os { op, code })
            },
            ProvisionEvent::DeviceCreated(buf) => {
                match decode_ifr_name(buf.as_slice()) {
                    Err(e) => {
                        self.stage = Stage::Failed;
                        ProvisionAction::Failed(e)
                    },
                    Ok(name) => {
                        self.real_name = name.clone();
                        match self.ipv4 {
                            Some((addr, prefix_len)) => {
                                self.stage = Stage::Assigning;
                                ProvisionAction::AssignIpv4 { name, addr, prefix_len }
                            },
                            None => {
                                self.stage = Stage::BringingUp;
                                ProvisionAction::BringUp { name }
                            },
                        }
                    },
                }
            },
            ProvisionEvent::Done => {
                match self.stage {
                    Stage::Opening => {
                        self.stage = Stage::SettingNonBlocking;
                        ProvisionAction::SetNonBlocking
                    },
                    Stage::SettingNonBlocking => {
                        let flags = iff_no_pi() | iff_tun();
                        assert(0x1000i16 | 0x0001i16 == 0x1001i16) by (bit_vector);
                        self.stage = Stage::Creating;
                        ProvisionAction::CreateDevice { ifr_name: self.ifr_name.clone(), flags }
                    },
                    Stage::Assigning => {
                        self.stage = Stage::BringingUp;
                        ProvisionAction::BringUp { name: self.real_name.clone() }
                    },
                    _ => {
                        self.stage = Stage::Finished;
                        ProvisionAction::Finished { name: self.real_name.clone() }
                    },
                }
            },
        }
    }
}

/// Provisioning a valid configuration with an address, when no system call
/// fails and the kernel returns a UTF-8 name: the descriptor is made
/// non-blocking, the device is requested under the configured name, the
/// configured address and prefix length go to the returned name, and that
/// interface is brought up, in this order.
pub proof fn lemma_provision_configures_address(
    c: IfaceConfig,
    returned: Seq<u8>,
    addr: [u8; 4],
    prefix_len: u8,
)
    requires
        name_error(effective_name(c)) is None,
        c.ipv4 == Some((addr, prefix_len)),
        vstd::utf8::valid_utf8(name_prefix(returned)),
    ensures
        ({
            let name = vstd::utf8::decode_utf8(name_prefix(returned));
            let s0 = initial_state(c);
            let t1 = next(s0, ProvisionEventView::Done);
            let t2 = next(t1.0, ProvisionEventView::Done);
            let t3 = next(t2.0, ProvisionEventView::DeviceCreated(returned));
            let t4 = next(t3.0, ProvisionEventView::Done);
            let t5 = next(t4.0, ProvisionEventView::Done);
            &&& accepts(s0, ProvisionEventView::Done)
            &&& t1.1 == ProvisionActionView::SetNonBlocking
            &&& accepts(t1.0, ProvisionEventView::Done)
            &&& t2.1 == ProvisionActionView::CreateDevice {
                ifr_name: ifr_name_bytes(effective_name(c)),
                flags: TUN_FLAGS,
            }
            &&& accepts(t2.0, ProvisionEventView::DeviceCreated(returned))
            &&& t3.1 == ProvisionActionView::AssignIpv4 { name, addr, prefix_len }
            &&& accepts(t3.0, ProvisionEventView::Done)
            &&& t4.1 == ProvisionActionView::BringUp { name }
            &&& accepts(t4.0, ProvisionEventView::Done)
            &&& t5.1 == ProvisionActionView::Finished { name }
            &&& t5.0.stage == Stage::Finished
        }),
{
}

/// A configuration without a name override always requests the same
/// device, "netsim": repeating the request on one machine asks the kernel
/// for that same device again rather than for a fresh one.
pub proof fn lemma_default_name_request(c1: IfaceConfig, c2: IfaceConfig)
    requires
        c1.name is None,
        c2.name is None,
    ensures
        initial_state(c1).ifr_name == initial_state(c2).ifr_name,
        initial_state(c1).ifr_name == ifr_name_bytes("netsim"@),
{
}

} // verus!
