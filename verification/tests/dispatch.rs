//! The dispatcher: success path, error path with lock release, and the
//! try-lock discipline under a reentrant exchange attempt.

use std::cell::RefCell;
use std::rc::Rc;

use tmcl::Command;
use tmcl::Error;
use tmcl::ErrStatus;
use tmcl::Instruction;
use tmcl::Interface;
use tmcl::Reply;
use tmcl::SharedInterface;
use tmcl::ParameterError;
use tmcl::instructions::GAP;
use tmcl::instructions::MST;
use tmcl::modules::generic;
use tmcl::modules::generic::GenericModule;
use tmcl::modules::tmcm::ActualSpeed;
use tmcl::modules::tmcm::MicrostepResolution;
use tmcl::modules::tmcm::TmcmModule;

/// A transport that records every rendered frame and answers each exchange
/// with the next scripted CAN reply body.
struct ScriptedBus {
    sent: Rc<RefCell<Vec<[u8; 7]>>>,
    replies: Vec<[u8; 7]>,
    next: usize,
}

impl ScriptedBus {
    fn new(replies: Vec<[u8; 7]>) -> (ScriptedBus, Rc<RefCell<Vec<[u8; 7]>>>) {
        let sent = Rc::new(RefCell::new(Vec::new()));
        (ScriptedBus { sent: sent.clone(), replies, next: 0 }, sent)
    }
}

impl Interface for ScriptedBus {
    type Error = String;

    fn transmit_command<T: Instruction>(&mut self, command: &Command<T>) -> Result<(), String> {
        self.sent.borrow_mut().push(command.serialize_can());
        Ok(())
    }

    fn receive_reply(&mut self) -> Result<Reply, String> {
        let body = self.replies[self.next];
        self.next += 1;
        Reply::parse_can(2, &body).map_err(|_| String::from("unknown status code"))
    }
}

#[test]
fn dispatcher_success_path() {
    // The module echoes status 100 and wire operand [0, 0, 0, 1] for a
    // get-parameter(ActualSpeed) call: the typed value is 1.
    let (bus, sent) = ScriptedBus::new(vec![[1, 100, 6, 0, 0, 0, 1]]);
    let module = TmcmModule::new(SharedInterface::new(bus), 1);
    let speed: ActualSpeed = module.write_command(GAP::<ActualSpeed>::new(0)).unwrap();
    assert_eq!(i16::from(speed), 1);
    // The get-parameter frame that went out: instruction 6, type 3 (the
    // parameter number of ActualSpeed), motor 0, zero operand.
    assert_eq!(sent.borrow().as_slice(), &[[6, 3, 0, 0, 0, 0, 0]]);
}

#[test]
fn dispatcher_error_path_releases_the_lock() {
    // The first exchange ends in a protocol error, not a crash, and leaves
    // the transport lock released: the second exchange succeeds.
    let (bus, _sent) = ScriptedBus::new(vec![[1, 4, 3, 0, 0, 0, 0], [1, 100, 3, 0, 0, 0, 0]]);
    let module = TmcmModule::new(SharedInterface::new(bus), 1);
    let first = module.write_command(MST::new(0));
    assert_eq!(first, Err(Error::ProtocolError(ErrStatus::InvalidValue)));
    let second = module.write_command(MST::new(0));
    assert_eq!(second, Ok(()));
}

#[test]
fn dispatcher_receive_failure_releases_the_lock() {
    // A malformed frame (unknown status byte) aborts the exchange with an
    // interface error and still releases the lock.
    let (bus, _sent) = ScriptedBus::new(vec![[1, 7, 3, 0, 0, 0, 0], [1, 100, 3, 0, 0, 0, 0]]);
    let module = TmcmModule::new(SharedInterface::new(bus), 1);
    let first = module.write_command(MST::new(0));
    assert_eq!(first, Err(Error::InterfaceError(String::from("unknown status code"))));
    let second = module.write_command(MST::new(0));
    assert_eq!(second, Ok(()));
}

#[test]
fn dispatcher_unrecognized_variant_is_a_decode_error() {
    // A success reply whose operand names no microstep resolution level is a
    // recoverable decode error, not a crash.
    let (bus, _sent) = ScriptedBus::new(vec![[1, 100, 6, 0, 0, 0, 9]]);
    let module = TmcmModule::new(SharedInterface::new(bus), 1);
    let result: Result<MicrostepResolution, _> =
        module.write_command(GAP::<MicrostepResolution>::new(0));
    assert_eq!(result, Err(Error::DecodeError(ParameterError::UnrecognizedVariant)));
}

#[test]
fn generic_dispatcher_returns_the_raw_operand() {
    // The generic get-parameter knows nothing of the register's semantic
    // type: the reply operand comes back raw, least significant byte first.
    let (bus, sent) = ScriptedBus::new(vec![[1, 100, 6, 0, 0, 2, 1]]);
    let module = GenericModule::new(SharedInterface::new(bus), 1);
    let raw: [u8; 4] = module.write_command(generic::GAP::new(0, 3)).unwrap();
    assert_eq!(raw, [1, 2, 0, 0]);
    assert_eq!(sent.borrow().as_slice(), &[[6, 3, 0, 0, 0, 0, 0]]);
}

/// What a reentrant exchange attempt observed while another exchange was in
/// flight on the same shared interface.
struct ReentrantState {
    second_module: Option<GenericModule<ReentrantBus>>,
    observed_busy: Option<bool>,
}

/// A transport whose transmit handler itself tries a second exchange on the
/// same shared interface, standing in for a concurrent caller.
struct ReentrantBus {
    state: Rc<RefCell<ReentrantState>>,
}

impl Interface for ReentrantBus {
    type Error = String;

    fn transmit_command<T: Instruction>(&mut self, _command: &Command<T>) -> Result<(), String> {
        let state = self.state.clone();
        let module = state.borrow_mut().second_module.take();
        if let Some(module) = module {
            let result = module.write_command(MST::new(0));
            let busy = matches!(result, Err(Error::InterfaceUnavailable));
            let mut state = state.borrow_mut();
            state.observed_busy = Some(busy);
            state.second_module = Some(module);
        }
        Ok(())
    }

    fn receive_reply(&mut self) -> Result<Reply, String> {
        Reply::parse_can(2, &[1, 100, 3, 0, 0, 0, 0]).map_err(|_| String::from("bad status"))
    }
}

#[test]
fn dispatcher_busy_while_an_exchange_is_in_flight() {
    // Two modules share one transport.  While the first module's exchange
    // is in flight, an exchange through the second module fails fast with
    // InterfaceUnavailable instead of interleaving frames; afterwards the
    // interface is available again.
    let state = Rc::new(RefCell::new(ReentrantState { second_module: None, observed_busy: None }));
    let bus = ReentrantBus { state: state.clone() };
    let shared = SharedInterface::new(bus);
    let module1 = GenericModule::new(shared.clone(), 1);
    let module2 = GenericModule::new(shared, 2);
    state.borrow_mut().second_module = Some(module2);

    let outer = module1.write_command(MST::new(0));
    assert_eq!(outer, Ok(()));
    assert_eq!(state.borrow().observed_busy, Some(true));

    // The exchange is over: the second module can use the interface now.
    let module2 = state.borrow_mut().second_module.take().unwrap();
    assert_eq!(module2.write_command(MST::new(0)), Ok(()));
}
