use evm_core::opcode::Category;
use evm_core::{ExitError, ExitFatal, ExitReason, ExitSucceed, Memory, Opcode, Stack, Valids, U256};

fn w(n: u64) -> U256 {
    U256::from_u64(n)
}

#[test]
fn stack_is_last_in_first_out() {
    let mut s = Stack::new(4);
    assert!(s.is_empty());
    assert_eq!(s.limit(), 4);
    assert_eq!(s.push(w(1)), Ok(()));
    assert_eq!(s.push(w(2)), Ok(()));
    assert_eq!(s.push(w(3)), Ok(()));
    assert_eq!(s.len(), 3);
    assert_eq!(s.peek(0), Ok(w(3)));
    assert_eq!(s.peek(2), Ok(w(1)));
    assert_eq!(s.set(1, w(9)), Ok(()));
    assert_eq!(s.data(), &vec![w(1), w(9), w(3)]);
    assert_eq!(s.pop(), Ok(w(3)));
    assert_eq!(s.pop(), Ok(w(9)));
    assert_eq!(s.pop(), Ok(w(1)));
    assert!(s.is_empty());
}

#[test]
fn stack_errors_leave_the_stack_as_it_was() {
    let mut s = Stack::new(2);
    assert_eq!(s.pop(), Err(ExitError::StackUnderflow));
    assert_eq!(s.pop_h256(), Err(ExitError::StackUnderflow));
    assert_eq!(s.peek(0), Err(ExitError::StackUnderflow));
    assert_eq!(s.set(0, w(1)), Err(ExitError::StackUnderflow));
    assert_eq!(s.push(w(1)), Ok(()));
    assert_eq!(s.push(w(2)), Ok(()));
    assert_eq!(s.push(w(3)), Err(ExitError::StackOverflow));
    assert_eq!(s.data(), &vec![w(1), w(2)]);
    assert_eq!(s.peek(2), Err(ExitError::StackUnderflow));
    assert_eq!(s.set(2, w(7)), Err(ExitError::StackUnderflow));
    assert_eq!(s.data(), &vec![w(1), w(2)]);
    let zero_limit = Stack::new(0).push(w(1));
    assert_eq!(zero_limit, Err(ExitError::StackOverflow));
}

#[test]
fn stack_pops_big_endian_bytes() {
    let mut s = Stack::new(2);
    assert_eq!(s.push(w(0x0102)), Ok(()));
    let h = s.pop_h256().unwrap();
    assert_eq!(h.0[31], 0x02);
    assert_eq!(h.0[30], 0x01);
    assert_eq!(h.0[0], 0);
    assert!(s.is_empty());
}

#[test]
fn memory_grows_in_words_and_never_shrinks() {
    let mut m = Memory::new(1000);
    assert!(m.is_empty());
    assert_eq!(m.limit(), 1000);
    assert_eq!(m.effective_len(), w(0));
    assert_eq!(m.resize_offset(w(0), w(0)), Ok(()));
    assert_eq!(m.effective_len(), w(0));
    assert_eq!(m.resize_offset(w(500), w(0)), Ok(()));
    assert_eq!(m.effective_len(), w(0));
    assert_eq!(m.resize_offset(w(0), w(1)), Ok(()));
    assert_eq!(m.effective_len(), w(32));
    assert_eq!(m.resize_offset(w(31), w(2)), Ok(()));
    assert_eq!(m.effective_len(), w(64));
    assert_eq!(m.resize_offset(w(0), w(5)), Ok(()));
    assert_eq!(m.effective_len(), w(64));
    assert_eq!(m.resize_offset(w(96), w(32)), Ok(()));
    assert_eq!(m.effective_len(), w(128));
    assert!(!m.is_empty());
}

#[test]
fn memory_refuses_ranges_past_its_limit() {
    let mut m = Memory::new(100);
    assert_eq!(
        m.resize_offset(w(90), w(11)),
        Err(ExitReason::Error(ExitError::InvalidRange))
    );
    assert_eq!(
        m.resize_check(w(90), w(11)),
        Err(ExitReason::Error(ExitError::InvalidRange))
    );
    assert_eq!(m.effective_len(), w(0));
    assert_eq!(m.resize_offset(w(90), w(10)), Ok(()));
    assert_eq!(m.effective_len(), w(128));
    assert_eq!(
        m.resize_offset(U256::max_value(), w(1)),
        Err(ExitReason::Fatal(ExitFatal::NotSupported))
    );
    assert_eq!(
        m.resize_offset(w(1), U256::max_value()),
        Err(ExitReason::Fatal(ExitFatal::NotSupported))
    );
    assert_eq!(m.resize_offset(U256::max_value(), w(0)), Ok(()));
    assert_eq!(m.effective_len(), w(128));
    assert_eq!(m.set(99, &[1, 2], 0, 2), Err(ExitFatal::NotSupported));
    assert_eq!(
        m.copy_large(w(99), w(0), w(2), &[1, 2]),
        Err(ExitFatal::NotSupported)
    );
    assert_eq!(
        m.copy_large(U256::max_value(), w(0), w(2), &[1, 2]),
        Err(ExitFatal::NotSupported)
    );
}

#[test]
fn memory_reads_zero_where_nothing_was_written() {
    let mut m = Memory::new(1000);
    assert_eq!(m.get(0, 4), vec![0, 0, 0, 0]);
    assert_eq!(m.set(2, &[7, 8, 9], 0, 3), Ok(()));
    assert_eq!(m.effective_len(), w(32));
    assert_eq!(m.get(0, 6), vec![0, 0, 7, 8, 9, 0]);
    assert_eq!(m.get(30, 4), vec![0, 0, 0, 0]);
    assert_eq!(m.get(usize::MAX, 2), vec![0, 0]);
    assert_eq!(m.get(3, 0), Vec::<u8>::new());
}

#[test]
fn memory_pads_a_short_source_with_zeros() {
    let mut m = Memory::new(1000);
    assert_eq!(m.set(0, &[1, 1, 1, 1, 1, 1], 0, 6), Ok(()));
    assert_eq!(m.set(1, &[7, 8, 9], 1, 4), Ok(()));
    assert_eq!(m.get(0, 6), vec![1, 8, 9, 0, 0, 1]);
    assert_eq!(m.set(0, &[5], 0, 0), Ok(()));
    assert_eq!(m.get(0, 6), vec![1, 8, 9, 0, 0, 1]);
    assert_eq!(m.copy_large(w(40), w(2), w(3), &[1, 2, 3, 4]), Ok(()));
    assert_eq!(m.get(40, 3), vec![3, 4, 0]);
    assert_eq!(m.effective_len(), w(64));
    assert_eq!(
        m.copy_large(w(40), U256::max_value(), w(3), &[1, 2, 3, 4]),
        Ok(())
    );
    assert_eq!(m.get(40, 3), vec![0, 0, 0]);
    assert_eq!(m.copy_large(w(900), w(0), w(0), &[1]), Ok(()));
    assert_eq!(m.effective_len(), w(64));
}

#[test]
fn memory_with_the_largest_limit_rounds_up_past_usize() {
    let mut m = Memory::new(usize::MAX);
    let offset = U256::from_usize(usize::MAX - 8);
    assert_eq!(m.resize_offset(offset, w(8)), Ok(()));
    let expected = if usize::MAX as u128 == u64::MAX as u128 {
        U256 {
            w0: 0,
            w1: 1,
            w2: 0,
            w3: 0,
        }
    } else {
        U256::from_u64(usize::MAX as u64 + 1)
    };
    assert_eq!(m.effective_len(), expected);
}

#[test]
fn valid_jump_destinations() {
    // JUMPDEST, PUSH1 0x5b, JUMPDEST, PUSH2 0x5b 0x5b, JUMPDEST
    let code = [0x5b, 0x60, 0x5b, 0x5b, 0x61, 0x5b, 0x5b, 0x5b];
    let v = Valids::new(&code);
    assert_eq!(v.len(), 8);
    assert!(!v.is_empty());
    let expected = [true, false, false, true, false, false, false, true];
    for i in 0..8 {
        assert_eq!(v.is_valid(i), expected[i]);
    }
    assert!(!v.is_valid(8));
    assert!(!v.is_valid(usize::MAX));
}

#[test]
fn push_data_past_the_end_of_the_code_hides_nothing_else() {
    // PUSH32 with only two bytes of data, one of them 0x5b
    let code = [0x5b, 0x7f, 0x5b, 0x00];
    let v = Valids::new(&code);
    assert!(v.is_valid(0));
    assert!(!v.is_valid(1));
    assert!(!v.is_valid(2));
    assert!(!v.is_valid(3));
    assert!(Valids::new(&[]).is_empty());
    assert!(!Valids::new(&[]).is_valid(0));
}

#[test]
fn opcode_catalog() {
    assert_eq!(Opcode(0x60).is_push(), Some(1));
    assert_eq!(Opcode(0x7f).is_push(), Some(32));
    assert_eq!(Opcode(0x5f).is_push(), None);
    assert_eq!(Opcode(0x80).is_push(), None);
    assert_eq!(Opcode(0x01).as_u8(), 1);
    assert_eq!(Opcode(0xff).as_usize(), 255);
    assert_eq!(Opcode(0x01).stack_arity(), (2, 1));
    assert_eq!(Opcode(0x08).stack_arity(), (3, 1));
    assert_eq!(Opcode(0x15).stack_arity(), (1, 1));
    assert_eq!(Opcode(0x52).stack_arity(), (2, 0));
    assert_eq!(Opcode(0x60).stack_arity(), (0, 1));
    assert_eq!(Opcode(0x80).stack_arity(), (1, 2));
    assert_eq!(Opcode(0x8f).stack_arity(), (16, 17));
    assert_eq!(Opcode(0x90).stack_arity(), (2, 2));
    assert_eq!(Opcode(0xa4).stack_arity(), (6, 0));
    assert_eq!(Opcode(0xf1).stack_arity(), (7, 1));
    assert_eq!(Opcode(0xfa).stack_arity(), (6, 1));
    assert_eq!(Opcode(0x00).category(), Category::Halt);
    assert_eq!(Opcode(0x01).category(), Category::Arithmetic);
    assert_eq!(Opcode(0x50).category(), Category::Stack);
    assert_eq!(Opcode(0x51).category(), Category::Memory);
    assert_eq!(Opcode(0x56).category(), Category::Flow);
    assert_eq!(Opcode(0x54).category(), Category::External);
    assert_eq!(Opcode(0x0c).category(), Category::External);
    assert!(Opcode(0x54).is_external());
    assert!(Opcode(0x20).is_external());
    assert!(Opcode(0xef).is_external());
    assert!(!Opcode(0x5b).is_external());
    assert!(!Opcode(0xfe).is_external());
}

#[test]
fn exit_reasons() {
    assert!(ExitReason::Succeed(ExitSucceed::Stopped).is_succeed());
    assert!(ExitReason::Error(ExitError::OutOfGas).is_error());
    assert!(ExitReason::Revert(evm_core::ExitRevert::Reverted).is_revert());
    assert!(ExitReason::Fatal(ExitFatal::NotSupported).is_fatal());
    assert!(!ExitReason::Fatal(ExitFatal::NotSupported).is_error());
    assert_eq!(
        ExitReason::from(ExitError::Other("no")),
        ExitReason::Error(ExitError::Other("no"))
    );
    assert_eq!(
        ExitReason::from(ExitSucceed::Returned),
        ExitReason::Succeed(ExitSucceed::Returned)
    );
    assert_eq!(
        ExitReason::from(ExitFatal::CallErrorAsFatal(ExitError::OutOfFund)),
        ExitReason::Fatal(ExitFatal::CallErrorAsFatal(ExitError::OutOfFund))
    );
    let r: ExitReason = evm_core::ExitRevert::Reverted.into();
    assert!(r.is_revert());
}
