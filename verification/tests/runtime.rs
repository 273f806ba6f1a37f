use evm_core::runtime::eval::system;
use evm_core::runtime::eval::{eval, handle_other, reply, Control};
use evm_core::runtime::{CallScheme, Context, CreateScheme, Handler, Resolve, Runtime, Transfer};
use evm_core::{
    Capture, ExitError, ExitFatal, ExitReason, ExitRevert, ExitSucceed, InterpreterHandler,
    Machine, Opcode, Trap, H160, H256, U256,
};
use std::rc::Rc;

fn w(n: u64) -> U256 {
    U256::from_u64(n)
}

fn addr(n: u8) -> H160 {
    let mut a = [0u8; 20];
    a[19] = n;
    H160(a)
}

fn hash(n: u8) -> H256 {
    let mut a = [0u8; 32];
    a[31] = n;
    H256(a)
}

#[derive(Debug, PartialEq, Eq)]
struct SeenCall {
    code_address: H160,
    transfer: Option<Transfer>,
    input: Vec<u8>,
    target_gas: Option<u64>,
    is_static: bool,
    context: Context,
}

struct Host {
    storage: Vec<(H160, H256, H256)>,
    logs: Vec<(H160, Vec<H256>, Vec<u8>)>,
    deleted: Vec<(H160, H160)>,
    calls: Vec<SeenCall>,
    creates: Vec<(H160, CreateScheme, U256, Vec<u8>, Option<u64>)>,
    call_answer: Option<(ExitReason, Vec<u8>)>,
    create_answer: Option<(ExitReason, Option<H160>, Vec<u8>)>,
    fail: Option<ExitError>,
}

impl Host {
    fn new() -> Self {
        Host {
            storage: Vec::new(),
            logs: Vec::new(),
            deleted: Vec::new(),
            calls: Vec::new(),
            creates: Vec::new(),
            call_answer: Some((ExitReason::Succeed(ExitSucceed::Returned), vec![1, 2, 3])),
            create_answer: Some((
                ExitReason::Succeed(ExitSucceed::Returned),
                Some(addr(0x77)),
                vec![],
            )),
            fail: None,
        }
    }

    fn answer<T>(&self, value: T) -> Result<T, ExitError> {
        match self.fail {
            Some(e) => Err(e),
            None => Ok(value),
        }
    }
}

impl Handler for Host {
    type CreateInterrupt = u8;
    type CallInterrupt = u16;

    fn balance(&self, address: H160) -> Result<U256, ExitError> {
        self.answer(w(1000 + address.0[19] as u64))
    }
    fn code_size(&self, address: H160) -> Result<U256, ExitError> {
        self.answer(w(address.0[19] as u64))
    }
    fn code_hash(&self, address: H160) -> Result<H256, ExitError> {
        self.answer(hash(address.0[19]))
    }
    fn code(&self, address: H160) -> Result<Vec<u8>, ExitError> {
        self.answer(vec![address.0[19], 0xc0, 0xde])
    }
    fn storage(&self, address: H160, index: H256) -> Result<H256, ExitError> {
        let found = self
            .storage
            .iter()
            .rev()
            .find(|(a, k, _)| *a == address && *k == index)
            .map(|(_, _, v)| *v)
            .unwrap_or(H256::zero());
        self.answer(found)
    }
    fn gas_left(&self) -> Result<U256, ExitError> {
        self.answer(w(21))
    }
    fn gas_price(&self) -> Result<U256, ExitError> {
        self.answer(w(22))
    }
    fn origin(&self) -> Result<H160, ExitError> {
        self.answer(addr(23))
    }
    fn block_hash(&self, number: U256) -> Result<H256, ExitError> {
        self.answer(hash(number.w0 as u8))
    }
    fn block_number(&self) -> Result<U256, ExitError> {
        self.answer(w(24))
    }
    fn block_coinbase(&self) -> Result<H160, ExitError> {
        self.answer(addr(25))
    }
    fn block_timestamp(&self) -> Result<U256, ExitError> {
        self.answer(w(26))
    }
    fn block_difficulty(&self) -> Result<U256, ExitError> {
        self.answer(w(27))
    }
    fn block_gas_limit(&self) -> Result<U256, ExitError> {
        self.answer(w(28))
    }
    fn block_base_fee_per_gas(&self) -> Result<U256, ExitError> {
        self.answer(w(29))
    }
    fn chain_id(&self) -> Result<U256, ExitError> {
        self.answer(w(30))
    }
    fn set_storage(&mut self, address: H160, index: H256, value: H256) -> Result<(), ExitError> {
        self.answer(())?;
        self.storage.push((address, index, value));
        Ok(())
    }
    fn log(&mut self, address: H160, topics: Vec<H256>, data: Vec<u8>) -> Result<(), ExitError> {
        self.answer(())?;
        self.logs.push((address, topics, data));
        Ok(())
    }
    fn mark_delete(&mut self, address: H160, target: H160) -> Result<(), ExitError> {
        self.answer(())?;
        self.deleted.push((address, target));
        Ok(())
    }
    fn create(
        &mut self,
        caller: H160,
        scheme: CreateScheme,
        value: U256,
        init_code: Vec<u8>,
        target_gas: Option<u64>,
    ) -> Capture<(ExitReason, Option<H160>, Vec<u8>), u8> {
        self.creates
            .push((caller, scheme, value, init_code, target_gas));
        match &self.create_answer {
            Some(a) => Capture::Exit(a.clone()),
            None => Capture::Trap(5),
        }
    }
    fn call(
        &mut self,
        code_address: H160,
        transfer: Option<Transfer>,
        input: Vec<u8>,
        target_gas: Option<u64>,
        is_static: bool,
        context: Context,
    ) -> Capture<(ExitReason, Vec<u8>), u16> {
        self.calls.push(SeenCall {
            code_address,
            transfer,
            input,
            target_gas,
            is_static,
            context,
        });
        match &self.call_answer {
            Some(a) => Capture::Exit(a.clone()),
            None => Capture::Trap(6),
        }
    }
    fn other(&mut self, opcode: Opcode, machine: &mut Machine) -> Result<(), ExitError> {
        if opcode.0 == 0x5f {
            machine.stack_mut().push(U256::zero())
        } else {
            Err(ExitError::InvalidCode)
        }
    }
}

impl InterpreterHandler for Host {
    fn before_bytecode(
        &mut self,
        _opcode: Opcode,
        _pc: usize,
        _machine: &Machine,
        _address: &H160,
    ) -> Result<(), ExitError> {
        Ok(())
    }

    fn after_bytecode(
        &mut self,
        _result: &Result<(), Capture<ExitReason, Trap>>,
        _machine: &Machine,
    ) {
    }
}

fn context() -> Context {
    Context {
        address: addr(1),
        caller: addr(2),
        apparent_value: w(3),
    }
}

fn runtime(code: Vec<u8>) -> Runtime {
    Runtime::new(Rc::new(code), Rc::new(vec![]), context(), 1024, 10000)
}

fn run(rt: &mut Runtime, host: &mut Host) -> Capture<ExitReason, Resolve<Host>> {
    rt.run(host, 100_000)
        .expect("the program ends within the step budget")
}

fn is_exit(c: &Capture<ExitReason, Resolve<Host>>, reason: ExitReason) -> bool {
    matches!(c, Capture::Exit(r) if *r == reason)
}

fn stopped(c: &Capture<ExitReason, Resolve<Host>>) -> bool {
    is_exit(c, ExitReason::Succeed(ExitSucceed::Stopped))
}

fn is_continue(c: &Control<Host>) -> bool {
    matches!(c, Control::Continue)
}

fn exit_of(c: &Control<Host>) -> Option<ExitReason> {
    match c {
        Control::Exit(r) => Some(*r),
        _ => None,
    }
}

#[test]
fn sha3_of_nothing_and_of_memory() {
    // PUSH1 0, PUSH1 0, SHA3
    let mut rt = runtime(vec![0x60, 0x00, 0x60, 0x00, 0x20]);
    let mut host = Host::new();
    assert!(stopped(&run(&mut rt, &mut host)));
    let empty: [u8; 32] = [
        0xc5, 0xd2, 0x46, 0x01, 0x86, 0xf7, 0x23, 0x3c, 0x92, 0x7e, 0x7d, 0xb2, 0xdc, 0xc7, 0x03,
        0xc0, 0xe5, 0x00, 0xb6, 0x53, 0xca, 0x82, 0x27, 0x3b, 0x7b, 0xfa, 0xd8, 0x04, 0x5d, 0x85,
        0xa4, 0x70,
    ];
    assert_eq!(
        rt.machine().stack().data(),
        &vec![U256::from_big_endian(&empty)]
    );
    assert_eq!(rt.machine().memory().effective_len(), w(0));
    // PUSH1 0x61 ('a'), PUSH1 0, MSTORE8, PUSH1 1, PUSH1 0, SHA3
    let mut rt = runtime(vec![0x60, 0x61, 0x60, 0x00, 0x53, 0x60, 0x01, 0x60, 0x00, 0x20]);
    assert!(stopped(&run(&mut rt, &mut host)));
    let of_a: [u8; 32] = [
        0x3a, 0xc2, 0x25, 0x16, 0x8d, 0xf5, 0x42, 0x12, 0xa2, 0x5c, 0x1c, 0x01, 0xfd, 0x35, 0xbe,
        0xbf, 0xea, 0x40, 0x8f, 0xda, 0xc2, 0xe3, 0x1d, 0xdd, 0x6f, 0x80, 0xa4, 0xbb, 0xf9, 0xa5,
        0xf1, 0xcb,
    ];
    assert_eq!(
        rt.machine().stack().data(),
        &vec![U256::from_big_endian(&of_a)]
    );
}

#[test]
fn sha3_errors_change_nothing() {
    let mut rt = runtime(vec![0x60, 0x01, 0x20]);
    let mut host = Host::new();
    assert!(is_exit(
        &run(&mut rt, &mut host),
        ExitReason::Error(ExitError::StackUnderflow)
    ));
    assert_eq!(rt.machine().stack().data(), &vec![w(1)]);
    // a range past the memory limit
    let mut rt = runtime(vec![0x61, 0xff, 0xff, 0x60, 0x00, 0x20]);
    assert!(is_exit(
        &run(&mut rt, &mut host),
        ExitReason::Error(ExitError::InvalidRange)
    ));
    assert_eq!(rt.machine().stack().data(), &vec![w(0xffff), w(0)]);
    assert_eq!(rt.machine().memory().effective_len(), w(0));
}

#[test]
fn environment_queries_push_the_answer() {
    // ADDRESS, CALLER, CALLVALUE, ORIGIN, GASPRICE, COINBASE, TIMESTAMP, NUMBER, DIFFICULTY,
    // GASLIMIT, CHAINID, SELFBALANCE, BASEFEE, GAS, RETURNDATASIZE
    let mut rt = runtime(vec![
        0x30, 0x33, 0x34, 0x32, 0x3a, 0x41, 0x42, 0x43, 0x44, 0x45, 0x46, 0x47, 0x48, 0x5a, 0x3d,
    ]);
    let mut host = Host::new();
    assert!(stopped(&run(&mut rt, &mut host)));
    assert_eq!(
        rt.machine().stack().data(),
        &vec![
            w(1),
            w(2),
            w(3),
            w(23),
            w(22),
            w(25),
            w(26),
            w(24),
            w(27),
            w(28),
            w(30),
            w(1001),
            w(29),
            w(21),
            w(0)
        ]
    );
}

#[test]
fn account_queries_replace_the_address() {
    // PUSH1 9, BALANCE, PUSH1 9, EXTCODESIZE, PUSH1 9, EXTCODEHASH, PUSH1 4, BLOCKHASH
    let mut rt = runtime(vec![
        0x60, 0x09, 0x31, 0x60, 0x09, 0x3b, 0x60, 0x09, 0x3f, 0x60, 0x04, 0x40,
    ]);
    let mut host = Host::new();
    assert!(stopped(&run(&mut rt, &mut host)));
    assert_eq!(
        rt.machine().stack().data(),
        &vec![w(1009), w(9), w(9), w(4)]
    );
    // the address is the low 20 bytes of the word
    let mut code = vec![0x7f];
    let mut word = [0xffu8; 32];
    word[31] = 0x05;
    for b in word.iter_mut().skip(12).take(19) {
        *b = 0;
    }
    code.extend_from_slice(&word);
    code.push(0x31);
    let mut rt = runtime(code);
    assert!(stopped(&run(&mut rt, &mut host)));
    assert_eq!(rt.machine().stack().data(), &vec![w(1005)]);
}

#[test]
fn an_error_of_the_host_ends_the_machine() {
    let mut host = Host::new();
    host.fail = Some(ExitError::OutOfGas);
    for code in [
        vec![0x60, 0x09, 0x31],
        vec![0x46],
        vec![0x60, 0x01, 0x54],
        vec![0x60, 0x01, 0x60, 0x02, 0x55],
        vec![0x60, 0x00, 0x60, 0x00, 0xa0],
        vec![0x60, 0x01, 0xff],
        vec![0x60, 0x01, 0x60, 0x00, 0x60, 0x00, 0x60, 0x09, 0x3c],
    ] {
        let mut rt = runtime(code);
        let capture = run(&mut rt, &mut host);
        assert!(is_exit(&capture, ExitReason::Error(ExitError::OutOfGas)));
        assert_eq!(
            rt.machine().position(),
            &Err(ExitReason::Error(ExitError::OutOfGas))
        );
        assert_eq!(rt.machine().memory().effective_len(), w(0));
    }
    // the operands stay on the stack
    let mut rt = runtime(vec![0x60, 0x01, 0x60, 0x02, 0x55]);
    let _ = run(&mut rt, &mut host);
    assert_eq!(rt.machine().stack().data(), &vec![w(1), w(2)]);
    assert!(host.storage.is_empty());
}

#[test]
fn stack_overflow_on_a_query() {
    let mut rt = Runtime::new(
        Rc::new(vec![0x46, 0x46]),
        Rc::new(vec![]),
        context(),
        1,
        100,
    );
    let mut host = Host::new();
    assert!(is_exit(
        &run(&mut rt, &mut host),
        ExitReason::Error(ExitError::StackOverflow)
    ));
    assert_eq!(rt.machine().stack().data(), &vec![w(30)]);
    let mut rt = runtime(vec![0x31]);
    assert!(is_exit(
        &run(&mut rt, &mut host),
        ExitReason::Error(ExitError::StackUnderflow)
    ));
}

#[test]
fn storage_round_trip() {
    // PUSH1 0x2a, PUSH1 7, SSTORE, PUSH1 7, SLOAD, PUSH1 8, SLOAD
    let mut rt = runtime(vec![
        0x60, 0x2a, 0x60, 0x07, 0x55, 0x60, 0x07, 0x54, 0x60, 0x08, 0x54,
    ]);
    let mut host = Host::new();
    assert!(stopped(&run(&mut rt, &mut host)));
    assert_eq!(rt.machine().stack().data(), &vec![w(0x2a), w(0)]);
    assert_eq!(host.storage, vec![(addr(1), hash(7), hash(0x2a))]);
}

#[test]
fn logs_carry_topics_and_data() {
    // PUSH1 0xee, PUSH1 1, MSTORE8, PUSH1 0x22 (topic 2), PUSH1 0x11 (topic 1),
    // PUSH1 3 (len), PUSH1 0 (offset), LOG2
    let mut rt = runtime(vec![
        0x60, 0xee, 0x60, 0x01, 0x53, 0x60, 0x22, 0x60, 0x11, 0x60, 0x03, 0x60, 0x00, 0xa2,
    ]);
    let mut host = Host::new();
    assert!(stopped(&run(&mut rt, &mut host)));
    assert!(rt.machine().stack().is_empty());
    assert_eq!(
        host.logs,
        vec![(addr(1), vec![hash(0x11), hash(0x22)], vec![0, 0xee, 0])]
    );
    // LOG0 of nothing, far away
    let mut rt = runtime(vec![0x60, 0x00, 0x61, 0xff, 0xff, 0xa0]);
    assert!(stopped(&run(&mut rt, &mut host)));
    assert_eq!(host.logs[1], (addr(1), vec![], vec![]));
    assert_eq!(rt.machine().memory().effective_len(), w(0));
    // LOG1 without a topic
    let mut rt = runtime(vec![0x60, 0x00, 0x60, 0x00, 0xa1]);
    assert!(is_exit(
        &run(&mut rt, &mut host),
        ExitReason::Error(ExitError::StackUnderflow)
    ));
    assert_eq!(rt.machine().stack().len(), 2);
    assert_eq!(host.logs.len(), 2);
    // LOG0 of a range past the limit
    let mut rt = runtime(vec![0x61, 0xff, 0xff, 0x60, 0x00, 0xa0]);
    assert!(is_exit(
        &run(&mut rt, &mut host),
        ExitReason::Error(ExitError::InvalidRange)
    ));
    assert_eq!(host.logs.len(), 2);
}

#[test]
fn selfdestruct_ends_the_machine() {
    let mut rt = runtime(vec![0x60, 0x09, 0xff, 0x00]);
    let mut host = Host::new();
    assert!(is_exit(
        &run(&mut rt, &mut host),
        ExitReason::Succeed(ExitSucceed::Suicided)
    ));
    assert_eq!(host.deleted, vec![(addr(1), addr(9))]);
    assert!(rt.machine().stack().is_empty());
    assert_eq!(
        rt.machine().position(),
        &Err(ExitReason::Succeed(ExitSucceed::Suicided))
    );
    let mut rt = runtime(vec![0xff]);
    assert!(is_exit(
        &run(&mut rt, &mut host),
        ExitReason::Error(ExitError::StackUnderflow)
    ));
    assert_eq!(host.deleted.len(), 1);
}

#[test]
fn extcodecopy_pads_with_zeros() {
    // PUSH1 4 (len), PUSH1 1 (code offset), PUSH1 2 (memory offset), PUSH1 9 (address)
    let mut rt = runtime(vec![0x60, 0x04, 0x60, 0x01, 0x60, 0x02, 0x60, 0x09, 0x3c]);
    let mut host = Host::new();
    assert!(stopped(&run(&mut rt, &mut host)));
    assert_eq!(
        rt.machine().memory().get(0, 8),
        vec![0, 0, 0xc0, 0xde, 0, 0, 0, 0]
    );
    assert!(rt.machine().stack().is_empty());
    let mut rt = runtime(vec![0x60, 0x04, 0x60, 0x01, 0x61, 0xff, 0xff, 0x60, 0x09, 0x3c]);
    assert!(is_exit(
        &run(&mut rt, &mut host),
        ExitReason::Error(ExitError::InvalidRange)
    ));
    assert_eq!(rt.machine().stack().len(), 4);
}

fn call_code(opcode: u8, with_value: bool) -> Vec<u8> {
    // memory[0] = 0xaa; out window 32..34, in window 0..2, value 5, to 9, gas 100
    let mut code = vec![0x60, 0xaa, 0x60, 0x00, 0x53];
    code.extend_from_slice(&[0x60, 0x02, 0x60, 0x20, 0x60, 0x02, 0x60, 0x00]);
    if with_value {
        code.extend_from_slice(&[0x60, 0x05]);
    }
    code.extend_from_slice(&[0x60, 0x09, 0x60, 0x64, opcode]);
    code
}

#[test]
fn call_hands_the_request_to_the_host() {
    let mut rt = runtime(call_code(0xf1, true));
    let mut host = Host::new();
    assert!(stopped(&run(&mut rt, &mut host)));
    assert_eq!(
        host.calls,
        vec![SeenCall {
            code_address: addr(9),
            transfer: Some(Transfer {
                source: addr(1),
                target: addr(9),
                value: w(5)
            }),
            input: vec![0xaa, 0],
            target_gas: Some(100),
            is_static: false,
            context: Context {
                address: addr(9),
                caller: addr(1),
                apparent_value: w(5)
            },
        }]
    );
    assert_eq!(rt.machine().stack().data(), &vec![w(1)]);
    assert_eq!(rt.machine().memory().get(32, 3), vec![1, 2, 0]);
    assert_eq!(rt.return_data_buffer(), &vec![1, 2, 3]);
    assert_eq!(rt.machine().memory().effective_len(), w(64));
}

#[test]
fn the_call_schemes_differ_in_context_and_transfer() {
    let mut host = Host::new();
    let mut rt = runtime(call_code(0xf2, true));
    assert!(stopped(&run(&mut rt, &mut host)));
    let mut rt = runtime(call_code(0xf4, false));
    assert!(stopped(&run(&mut rt, &mut host)));
    let mut rt = runtime(call_code(0xfa, false));
    assert!(stopped(&run(&mut rt, &mut host)));
    assert_eq!(host.calls.len(), 3);
    assert_eq!(
        host.calls[0].transfer,
        Some(Transfer {
            source: addr(1),
            target: addr(1),
            value: w(5)
        })
    );
    assert_eq!(
        host.calls[0].context,
        Context {
            address: addr(1),
            caller: addr(1),
            apparent_value: w(5)
        }
    );
    assert_eq!(host.calls[1].transfer, None);
    assert_eq!(host.calls[1].context, context());
    assert_eq!(host.calls[2].transfer, None);
    assert_eq!(
        host.calls[2].context,
        Context {
            address: addr(9),
            caller: addr(1),
            apparent_value: w(0)
        }
    );
    assert!(!host.calls[0].is_static);
    assert!(!host.calls[1].is_static);
    assert!(host.calls[2].is_static);
    for call in host.calls.iter() {
        assert_eq!(call.code_address, addr(9));
        assert_eq!(call.input, vec![0xaa, 0]);
        assert_eq!(call.target_gas, Some(100));
    }
}

#[test]
fn call_results() {
    let mut host = Host::new();
    // revert: 0 is pushed and the data is copied
    host.call_answer = Some((ExitReason::Revert(ExitRevert::Reverted), vec![7]));
    let mut rt = runtime(call_code(0xf1, true));
    assert!(stopped(&run(&mut rt, &mut host)));
    assert_eq!(rt.machine().stack().data(), &vec![w(0)]);
    assert_eq!(rt.machine().memory().get(32, 2), vec![7, 0]);
    assert_eq!(rt.return_data_buffer(), &vec![7]);
    // error: 0 is pushed and nothing is copied
    host.call_answer = Some((ExitReason::Error(ExitError::OutOfFund), vec![7]));
    let mut rt = runtime(call_code(0xf1, true));
    assert!(stopped(&run(&mut rt, &mut host)));
    assert_eq!(rt.machine().stack().data(), &vec![w(0)]);
    assert_eq!(rt.machine().memory().get(32, 2), vec![0, 0]);
    assert_eq!(rt.return_data_buffer(), &vec![7]);
    // fatal: 0 is pushed and the fatal error ends the machine
    host.call_answer = Some((ExitReason::Fatal(ExitFatal::UnhandledInterrupt), vec![]));
    let mut rt = runtime(call_code(0xf1, true));
    assert!(is_exit(
        &run(&mut rt, &mut host),
        ExitReason::Fatal(ExitFatal::UnhandledInterrupt)
    ));
    assert_eq!(rt.machine().stack().data(), &vec![w(0)]);
    // the host suspends the call
    host.call_answer = None;
    let mut rt = runtime(call_code(0xf1, true));
    match run(&mut rt, &mut host) {
        Capture::Trap(Resolve::Call(interrupt)) => assert_eq!(interrupt, 6),
        _ => panic!("the call is suspended"),
    }
    assert_eq!(rt.machine().stack().data(), &vec![w(0)]);
    assert_eq!(rt.return_data_buffer(), &Vec::<u8>::new());
    assert!(rt.machine().position().is_ok());
}

#[test]
fn call_errors_before_the_host_is_asked() {
    let mut host = Host::new();
    let mut rt = runtime(vec![0x60, 0x09, 0x60, 0x64, 0xf1]);
    assert!(is_exit(
        &run(&mut rt, &mut host),
        ExitReason::Error(ExitError::StackUnderflow)
    ));
    assert_eq!(rt.machine().stack().len(), 2);
    // an output window past the memory limit
    let mut rt = runtime(vec![
        0x60, 0x02, 0x61, 0xff, 0xff, 0x60, 0x00, 0x60, 0x00, 0x60, 0x09, 0x60, 0x64, 0xfa,
    ]);
    assert!(is_exit(
        &run(&mut rt, &mut host),
        ExitReason::Error(ExitError::InvalidRange)
    ));
    assert_eq!(rt.machine().stack().len(), 6);
    assert_eq!(rt.machine().memory().effective_len(), w(0));
    assert!(host.calls.is_empty());
}

#[test]
fn a_gas_request_past_u64_is_no_gas_cap() {
    let mut host = Host::new();
    let mut code = vec![0x60, 0x00, 0x60, 0x00, 0x60, 0x00, 0x60, 0x00, 0x60, 0x09, 0x7f];
    code.extend_from_slice(&U256::max_value().to_big_endian());
    code.push(0xf4);
    let mut rt = runtime(code);
    assert!(stopped(&run(&mut rt, &mut host)));
    assert_eq!(host.calls[0].target_gas, None);
    assert_eq!(host.calls[0].input, Vec::<u8>::new());
    let request = system::call_request(
        &runtime(vec![]),
        CallScheme::Call,
    );
    assert_eq!(
        request.err(),
        Some(ExitReason::Error(ExitError::StackUnderflow))
    );
}

#[test]
fn return_data_can_be_copied_after_a_call() {
    // after the call: RETURNDATASIZE, PUSH1 2 (len), PUSH1 1 (data offset), PUSH1 0x40,
    // RETURNDATACOPY
    let mut code = call_code(0xf1, true);
    code.extend_from_slice(&[0x3d, 0x60, 0x02, 0x60, 0x01, 0x60, 0x40, 0x3e]);
    let mut rt = runtime(code);
    let mut host = Host::new();
    assert!(stopped(&run(&mut rt, &mut host)));
    assert_eq!(rt.machine().stack().data(), &vec![w(1), w(3)]);
    assert_eq!(rt.machine().memory().get(0x40, 3), vec![2, 3, 0]);
    // a range that ends past the buffer
    let mut code = call_code(0xf1, true);
    code.extend_from_slice(&[0x60, 0x03, 0x60, 0x01, 0x60, 0x40, 0x3e]);
    let mut rt = runtime(code);
    assert!(is_exit(
        &run(&mut rt, &mut host),
        ExitReason::Error(ExitError::OutOfOffset)
    ));
    assert_eq!(rt.machine().stack().len(), 4);
    assert_eq!(rt.machine().memory().effective_len(), w(64));
    // an offset that wraps around
    let mut code = vec![0x60, 0x01, 0x7f];
    code.extend_from_slice(&U256::max_value().to_big_endian());
    code.extend_from_slice(&[0x60, 0x00, 0x3e]);
    let mut rt = runtime(code);
    assert!(is_exit(
        &run(&mut rt, &mut host),
        ExitReason::Error(ExitError::OutOfOffset)
    ));
    // a copy of nothing from an empty buffer
    let mut rt = runtime(vec![0x60, 0x00, 0x60, 0x00, 0x60, 0x00, 0x3e]);
    assert!(stopped(&run(&mut rt, &mut host)));
}

#[test]
fn create_hands_the_init_code_to_the_host() {
    // memory[0] = 0xaa, PUSH1 1 (len), PUSH1 0 (offset), PUSH1 5 (value), CREATE
    let mut rt = runtime(vec![
        0x60, 0xaa, 0x60, 0x00, 0x53, 0x60, 0x01, 0x60, 0x00, 0x60, 0x05, 0xf0,
    ]);
    let mut host = Host::new();
    assert!(stopped(&run(&mut rt, &mut host)));
    assert_eq!(
        host.creates,
        vec![(
            addr(1),
            CreateScheme::Legacy { caller: addr(1) },
            w(5),
            vec![0xaa],
            None
        )]
    );
    assert_eq!(rt.machine().stack().data(), &vec![w(0x77)]);
}

#[test]
fn create2_hashes_the_init_code() {
    // PUSH1 0x33 (salt), PUSH1 0 (len), PUSH1 0 (offset), PUSH1 0 (value), CREATE2
    let mut rt = runtime(vec![0x60, 0x33, 0x60, 0x00, 0x60, 0x00, 0x60, 0x00, 0xf5]);
    let mut host = Host::new();
    assert!(stopped(&run(&mut rt, &mut host)));
    let empty: [u8; 32] = [
        0xc5, 0xd2, 0x46, 0x01, 0x86, 0xf7, 0x23, 0x3c, 0x92, 0x7e, 0x7d, 0xb2, 0xdc, 0xc7, 0x03,
        0xc0, 0xe5, 0x00, 0xb6, 0x53, 0xca, 0x82, 0x27, 0x3b, 0x7b, 0xfa, 0xd8, 0x04, 0x5d, 0x85,
        0xa4, 0x70,
    ];
    assert_eq!(
        host.creates,
        vec![(
            addr(1),
            CreateScheme::Create2 {
                caller: addr(1),
                code_hash: H256(empty),
                salt: hash(0x33)
            },
            w(0),
            vec![],
            None
        )]
    );
    assert_eq!(rt.machine().stack().data(), &vec![w(0x77)]);
    let mut rt = runtime(vec![0x60, 0x00, 0x60, 0x00, 0x60, 0x00, 0xf5]);
    assert!(is_exit(
        &run(&mut rt, &mut host),
        ExitReason::Error(ExitError::StackUnderflow)
    ));
}

#[test]
fn create_results() {
    let code = vec![0x60, 0x00, 0x60, 0x00, 0x60, 0x00, 0xf0];
    let mut host = Host::new();
    host.create_answer = Some((ExitReason::Revert(ExitRevert::Reverted), Some(addr(5)), vec![4]));
    let mut rt = runtime(code.clone());
    assert!(stopped(&run(&mut rt, &mut host)));
    assert_eq!(rt.machine().stack().data(), &vec![w(0)]);
    assert_eq!(rt.return_data_buffer(), &vec![4]);
    host.create_answer = Some((ExitReason::Error(ExitError::CreateCollision), None, vec![]));
    let mut rt = runtime(code.clone());
    assert!(stopped(&run(&mut rt, &mut host)));
    assert_eq!(rt.machine().stack().data(), &vec![w(0)]);
    host.create_answer = Some((ExitReason::Succeed(ExitSucceed::Returned), None, vec![]));
    let mut rt = runtime(code.clone());
    assert!(stopped(&run(&mut rt, &mut host)));
    assert_eq!(rt.machine().stack().data(), &vec![w(0)]);
    host.create_answer = Some((ExitReason::Fatal(ExitFatal::NotSupported), None, vec![]));
    let mut rt = runtime(code.clone());
    assert!(is_exit(
        &run(&mut rt, &mut host),
        ExitReason::Fatal(ExitFatal::NotSupported)
    ));
    assert_eq!(rt.machine().stack().data(), &vec![w(0)]);
    host.create_answer = None;
    let mut rt = runtime(code);
    match run(&mut rt, &mut host) {
        Capture::Trap(Resolve::Create(interrupt)) => assert_eq!(interrupt, 5),
        _ => panic!("the create is suspended"),
    }
    assert_eq!(rt.machine().stack().data(), &vec![w(0)]);
}

#[test]
fn other_opcodes_go_to_the_host() {
    let mut host = Host::new();
    let mut rt = runtime(vec![0x5f, 0x5f]);
    assert!(stopped(&run(&mut rt, &mut host)));
    assert_eq!(rt.machine().stack().data(), &vec![w(0), w(0)]);
    let mut rt = runtime(vec![0x0c]);
    assert!(is_exit(
        &run(&mut rt, &mut host),
        ExitReason::Error(ExitError::InvalidCode)
    ));
    let mut rt = runtime(vec![]);
    assert!(is_continue(&handle_other(&mut rt, Opcode(0x5f), &mut host)));
    assert_eq!(
        exit_of(&handle_other(&mut rt, Opcode(0x0c), &mut host)),
        Some(ExitReason::Error(ExitError::InvalidCode))
    );
    assert_eq!(rt.context(), &context());
}

#[test]
fn eval_runs_the_instruction_of_a_trap() {
    let mut host = Host::new();
    let mut rt = runtime(vec![]);
    assert!(is_continue(&eval(&mut rt, Opcode(0x46), &mut host)));
    assert!(is_continue(&eval(&mut rt, Opcode(0x30), &mut host)));
    assert!(is_continue(&eval(&mut rt, Opcode(0x31), &mut host)));
    assert_eq!(rt.machine().stack().data(), &vec![w(30), w(1001)]);
    assert_eq!(
        exit_of(&eval(&mut rt, Opcode(0xff), &mut host)),
        Some(ExitReason::Succeed(ExitSucceed::Suicided))
    );
    let mut beneficiary = [0u8; 20];
    beneficiary[18] = 0x03;
    beneficiary[19] = 0xe9;
    assert_eq!(host.deleted, vec![(addr(1), H160(beneficiary))]);
    let mut m = Machine::new(Rc::new(vec![]), Rc::new(vec![]), 2, 100);
    assert!(is_continue(&reply::<Host>(&mut m, 0, Ok(w(4)))));
    assert_eq!(
        exit_of(&reply::<Host>(&mut m, 0, Err(ExitError::PCUnderflow))),
        Some(ExitReason::Error(ExitError::PCUnderflow))
    );
    assert_eq!(
        exit_of(&reply::<Host>(&mut m, 2, Ok(w(4)))),
        Some(ExitReason::Error(ExitError::StackUnderflow))
    );
    assert!(is_continue(&reply::<Host>(&mut m, 1, Ok(w(5)))));
    assert!(is_continue(&reply::<Host>(&mut m, 0, Ok(w(6)))));
    assert_eq!(
        exit_of(&reply::<Host>(&mut m, 0, Ok(w(7)))),
        Some(ExitReason::Error(ExitError::StackOverflow))
    );
    assert_eq!(m.stack().data(), &vec![w(5), w(6)]);
}

#[test]
fn an_exited_runtime_refuses_every_further_step() {
    let mut host = Host::new();
    let mut rt = runtime(vec![0xfe]);
    for _ in 0..3 {
        assert!(is_exit(
            &run(&mut rt, &mut host),
            ExitReason::Error(ExitError::DesignatedInvalid)
        ));
    }
    let mut rt = runtime(vec![0x5b, 0x60, 0x00, 0x56]);
    assert!(rt.run(&mut host, 50).is_none());
    assert!(rt.step(&mut host).is_ok());
}

#[test]
fn a_driver_resumes_a_suspended_call() {
    let mut host = Host::new();
    host.call_answer = None;
    // after the call: PUSH1 1, ADD
    let mut code = call_code(0xf1, true);
    code.extend_from_slice(&[0x60, 0x01, 0x01]);
    let mut rt = runtime(code);
    match run(&mut rt, &mut host) {
        Capture::Trap(Resolve::Call(interrupt)) => assert_eq!(interrupt, 6),
        _ => panic!("the call is suspended"),
    }
    // the driver has run the call: it succeeded and returned two bytes
    assert_eq!(rt.machine_mut().stack_mut().set(0, w(1)), Ok(()));
    assert_eq!(
        rt.machine_mut()
            .memory_mut()
            .copy_large(w(32), w(0), w(2), &[8, 9]),
        Ok(())
    );
    rt.set_return_data(vec![8, 9]);
    assert!(stopped(&run(&mut rt, &mut host)));
    assert_eq!(rt.machine().stack().data(), &vec![w(2)]);
    assert_eq!(rt.machine().memory().get(32, 2), vec![8, 9]);
    assert_eq!(rt.return_data_buffer(), &vec![8, 9]);
}
