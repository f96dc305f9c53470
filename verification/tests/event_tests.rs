use evm_core::Capture;
use evm_core::ExitReason;
use evm_core::ExitSucceed;
use evm_core::Memory;
use evm_core::Opcode;
use evm_core::Stack;
use evm_runtime::Context;
use evm_runtime::CreateScheme;
use evm_runtime::Transfer;
use evm_tracing::gasometer::Snapshot;
use evm_tracing::lifecycle::Event as LifecycleEvent;
use evm_tracing::runtime::Event as RuntimeEvent;
use evm_tracing::tracing::RecordingListener;
use evm_tracing::tracing::Tracer;
use primitive_types::H160;
use primitive_types::H256;
use primitive_types::U256;

#[test]
fn snapshot_gas_subtracts_used_and_memory_gas() {
    let s = Snapshot { gas_limit: 100, used_gas: 40, memory_gas: 10 };
    assert_eq!(s.gas(), 50);
}

#[test]
fn snapshot_constructor_and_exhausted_gas() {
    let s = Snapshot::new(100, 40, 10);
    assert_eq!(s, Snapshot { gas_limit: 100, used_gas: 40, memory_gas: 10 });
    assert_eq!(Snapshot::new(7, 4, 3).gas(), 0);
    assert_eq!(Snapshot::new(7, 0, 0).gas(), 7);
}

#[test]
fn checked_gas_rejects_exactly_the_broken_invariant() {
    let good = Snapshot { gas_limit: 100, used_gas: 40, memory_gas: 10 };
    assert_eq!(good.checked_gas(), Some(50));
    let broken = Snapshot { gas_limit: 30, used_gas: 40, memory_gas: 10 };
    assert_eq!(broken.checked_gas(), None);
    let barely = Snapshot { gas_limit: 50, used_gas: 40, memory_gas: 10 };
    assert_eq!(barely.checked_gas(), Some(0));
    let overflowing = Snapshot { gas_limit: u64::MAX, used_gas: u64::MAX, memory_gas: 1 };
    assert_eq!(overflowing.checked_gas(), None);
}

#[test]
fn execution_step_events_reach_the_listener() {
    let context = Context {
        address: H160::repeat_byte(0xaa),
        caller: H160::repeat_byte(0xbb),
        apparent_value: U256::from(5u64),
    };
    let step = RuntimeEvent::Step {
        context,
        opcode: Opcode(0x60),
        position: Ok(3),
        stack: Stack::new(16),
        memory: Memory::new(32),
    };
    let mut t: Tracer<RecordingListener<RuntimeEvent>> = Tracer::new();
    let (_unit, listener) =
        t.using(RecordingListener::new(), move |mut scope: Tracer<RecordingListener<RuntimeEvent>>| {
            scope.emit(step);
            scope.emit(RuntimeEvent::SLoad {
                address: H160::repeat_byte(0xaa),
                index: H256::repeat_byte(1),
                value: H256::repeat_byte(2),
            });
            scope.emit(RuntimeEvent::StepResult {
                result: Err(Capture::Exit(ExitReason::Succeed(ExitSucceed::Stopped))),
                return_value: vec![0x01, 0x02],
            });
            (scope, ())
        });
    let log = listener.expect("listener comes back").log;
    assert_eq!(log.len(), 3);
    match &log[0] {
        RuntimeEvent::Step { context, opcode, position, .. } => {
            assert_eq!(context.address, H160::repeat_byte(0xaa));
            assert_eq!(*opcode, Opcode(0x60));
            assert_eq!(*position, Ok(3));
        }
        _ => panic!("the first event is the step"),
    }
    match &log[1] {
        RuntimeEvent::SLoad { index, value, .. } => {
            assert_eq!(*index, H256::repeat_byte(1));
            assert_eq!(*value, H256::repeat_byte(2));
        }
        _ => panic!("the second event is the storage load"),
    }
    match &log[2] {
        RuntimeEvent::StepResult { result, return_value } => {
            assert_eq!(*result, Err(Capture::Exit(ExitReason::Succeed(ExitSucceed::Stopped))));
            assert_eq!(*return_value, vec![0x01, 0x02]);
        }
        _ => panic!("the third event is the step result"),
    }
}

#[test]
fn lifecycle_events_reach_the_listener() {
    let context = Context {
        address: H160::repeat_byte(1),
        caller: H160::repeat_byte(2),
        apparent_value: U256::from(0u64),
    };
    let call = LifecycleEvent::Call {
        code_address: H160::repeat_byte(3),
        transfer: Some(Transfer {
            source: H160::repeat_byte(2),
            target: H160::repeat_byte(3),
            value: U256::from(9u64),
        }),
        input: vec![0xde, 0xad],
        target_gas: Some(21000),
        is_static: false,
        context,
    };
    let create = LifecycleEvent::Create {
        caller: H160::repeat_byte(2),
        address: H160::repeat_byte(4),
        scheme: CreateScheme::Legacy { caller: H160::repeat_byte(2) },
        value: U256::from(1u64),
        init_code: vec![0x00],
        target_gas: None,
    };
    let suicide = LifecycleEvent::Suicide {
        address: H160::repeat_byte(4),
        target: H160::repeat_byte(5),
        balance: U256::from(7u64),
    };
    let mut t: Tracer<RecordingListener<LifecycleEvent>> = Tracer::new();
    let (_unit, listener) =
        t.using(RecordingListener::new(), move |mut scope: Tracer<RecordingListener<LifecycleEvent>>| {
            scope.emit(call);
            scope.emit(create);
            scope.emit(suicide);
            (scope, ())
        });
    let log = listener.expect("listener comes back").log;
    assert_eq!(log.len(), 3);
    match &log[0] {
        LifecycleEvent::Call { code_address, transfer, input, target_gas, is_static, context } => {
            assert_eq!(*code_address, H160::repeat_byte(3));
            let transfer = transfer.as_ref().expect("the call carries a transfer");
            assert_eq!(transfer.source, H160::repeat_byte(2));
            assert_eq!(transfer.value, U256::from(9u64));
            assert_eq!(*input, vec![0xde, 0xad]);
            assert_eq!(*target_gas, Some(21000));
            assert!(!*is_static);
            assert_eq!(context.caller, H160::repeat_byte(2));
        }
        _ => panic!("the first event is the call"),
    }
    match &log[1] {
        LifecycleEvent::Create { address, scheme, value, init_code, target_gas, .. } => {
            assert_eq!(*address, H160::repeat_byte(4));
            assert_eq!(*scheme, CreateScheme::Legacy { caller: H160::repeat_byte(2) });
            assert_eq!(*value, U256::from(1u64));
            assert_eq!(*init_code, vec![0x00]);
            assert_eq!(*target_gas, None);
        }
        _ => panic!("the second event is the create"),
    }
    match &log[2] {
        LifecycleEvent::Suicide { address, target, balance } => {
            assert_eq!(*address, H160::repeat_byte(4));
            assert_eq!(*target, H160::repeat_byte(5));
            assert_eq!(*balance, U256::from(7u64));
        }
        _ => panic!("the third event is the suicide"),
    }
}
