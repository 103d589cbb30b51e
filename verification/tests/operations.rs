use wasi_bridge::abi::NativeType::{I64, U16, U32, U64, U8};
use wasi_bridge::abi::{NativeType, NativeValue, ReturnType, Word, WordType};
use wasi_bridge::ops::{all_operations, Operation, OPERATION_COUNT};
use wasi_bridge::signature::{guest_signature, param_words, return_words};
use wasi_bridge::trampoline::{decode_arguments, encode_result, NativeResult};

const W32: WordType = WordType::I32;
const W64: WordType = WordType::I64;

fn zero_words(types: &[WordType]) -> Vec<Word> {
    types
        .iter()
        .map(|t| match t {
            WordType::I32 => Word::W32(0),
            WordType::I64 => Word::W64(0),
        })
        .collect()
}

#[test]
fn every_operation_is_listed_once() {
    let ops = all_operations();
    assert_eq!(OPERATION_COUNT, 45);
    assert_eq!(ops.len(), 45);
    for (i, op) in ops.iter().enumerate() {
        assert_eq!(op.index(), i);
        assert_eq!(Operation::from_index(i), Some(*op));
    }
    assert_eq!(Operation::from_index(45), None);
    assert_eq!(Operation::from_index(usize::MAX), None);
    let mut names: Vec<&str> = ops.iter().map(|op| op.name()).collect();
    names.sort();
    names.dedup();
    assert_eq!(names.len(), 45);
}

#[test]
fn operations_keep_their_order_of_registration() {
    let names: Vec<&str> = all_operations().iter().map(|op| op.name()).collect();
    assert_eq!(
        names,
        vec![
            "args_get",
            "args_sizes_get",
            "environ_get",
            "environ_sizes_get",
            "fd_allocate",
            "clock_res_get",
            "clock_time_get",
            "fd_close",
            "fd_read",
            "fd_renumber",
            "fd_sync",
            "fd_write",
            "poll_oneoff",
            "proc_exit",
            "random_get",
            "sched_yield",
            "sock_recv",
            "sock_send",
            "sock_shutdown",
            "fd_prestat_get",
            "fd_prestat_dir_name",
            "fd_datasync",
            "fd_pread",
            "fd_pwrite",
            "fd_seek",
            "fd_tell",
            "fd_fdstat_get",
            "fd_fdstat_set_flags",
            "fd_fdstat_set_rights",
            "fd_advise",
            "path_create_directory",
            "path_link",
            "path_open",
            "fd_readdir",
            "path_readlink",
            "path_rename",
            "fd_filestat_get",
            "fd_filestat_set_times",
            "fd_filestat_set_size",
            "path_filestat_get",
            "path_filestat_set_times",
            "path_symlink",
            "path_unlink_file",
            "path_remove_directory",
            "proc_raise",
        ]
    );
}

#[test]
fn native_parameters_of_chosen_operations() {
    assert_eq!(Operation::SchedYield.params(), Vec::<NativeType>::new());
    assert_eq!(Operation::ProcExit.params(), vec![U32]);
    assert_eq!(Operation::ProcRaise.params(), vec![U8]);
    assert_eq!(Operation::ClockTimeGet.params(), vec![U32, U64, U32]);
    assert_eq!(Operation::FdWrite.params(), vec![U32, U32, U32, U32]);
    assert_eq!(Operation::FdSeek.params(), vec![U32, I64, U8, U32]);
    assert_eq!(Operation::FdFdstatSetFlags.params(), vec![U32, U16]);
    assert_eq!(Operation::FdFdstatSetRights.params(), vec![U32, U64, U64]);
    assert_eq!(Operation::SockRecv.params(), vec![U32, U32, U32, U16, U32, U32]);
    assert_eq!(Operation::SockShutdown.params(), vec![U32, U8]);
    assert_eq!(
        Operation::PathOpen.params(),
        vec![U32, U32, U32, U32, U16, U64, U64, U16, U32]
    );
    assert_eq!(
        Operation::PathFilestatSetTimes.params(),
        vec![U32, U32, U32, U32, U64, U64, U16]
    );
}

#[test]
fn guest_signatures_of_chosen_operations() {
    assert_eq!(param_words(Operation::SchedYield), Vec::<WordType>::new());
    assert_eq!(param_words(Operation::ClockTimeGet), vec![W32, W64, W32]);
    assert_eq!(param_words(Operation::FdSeek), vec![W32, W64, W32, W32]);
    assert_eq!(
        param_words(Operation::PathOpen),
        vec![W32, W32, W32, W32, W32, W64, W64, W32, W32]
    );
    assert_eq!(return_words(Operation::FdSeek), vec![W32]);
    assert_eq!(return_words(Operation::ProcExit), Vec::<WordType>::new());
    let sig = guest_signature(Operation::FdAdvise);
    assert_eq!(sig.params, vec![W32, W64, W64, W32]);
    assert_eq!(sig.results, vec![W32]);
}

#[test]
fn only_proc_exit_has_no_result() {
    for op in all_operations() {
        if op == Operation::ProcExit {
            assert_eq!(op.result(), ReturnType::Unit);
        } else {
            assert_eq!(op.result(), ReturnType::Value(NativeType::U16));
        }
    }
}

#[test]
fn wired_operations_and_what_they_need() {
    let wired: Vec<&str> = all_operations()
        .iter()
        .filter(|op| op.is_wired())
        .map(|op| op.name())
        .collect();
    assert_eq!(wired.len(), 19);
    assert_eq!(&wired[..], &all_operations().iter().map(|op| op.name()).collect::<Vec<_>>()[..19]);
    for op in all_operations() {
        if !op.is_wired() {
            assert!(!op.needs_context());
            assert!(!op.needs_memory());
        }
    }
    assert!(Operation::FdClose.needs_context() && !Operation::FdClose.needs_memory());
    assert!(!Operation::RandomGet.needs_context() && Operation::RandomGet.needs_memory());
    assert!(Operation::FdWrite.needs_context() && Operation::FdWrite.needs_memory());
    assert!(!Operation::ProcExit.needs_context() && !Operation::ProcExit.needs_memory());
    assert!(!Operation::SchedYield.needs_context() && !Operation::SchedYield.needs_memory());
    assert!(!Operation::ClockResGet.needs_context() && Operation::ClockResGet.needs_memory());
    assert!(!Operation::ClockTimeGet.needs_context() && Operation::ClockTimeGet.needs_memory());
    assert!(!Operation::PollOneoff.needs_context() && Operation::PollOneoff.needs_memory());
    let with_context: Vec<&str> = all_operations()
        .iter()
        .filter(|op| op.needs_context())
        .map(|op| op.name())
        .collect();
    assert_eq!(
        with_context,
        vec![
            "args_get",
            "args_sizes_get",
            "environ_get",
            "environ_sizes_get",
            "fd_allocate",
            "fd_close",
            "fd_read",
            "fd_renumber",
            "fd_sync",
            "fd_write",
            "sock_recv",
            "sock_send",
            "sock_shutdown",
        ]
    );
    let with_memory: Vec<&str> = all_operations()
        .iter()
        .filter(|op| op.needs_memory())
        .map(|op| op.name())
        .collect();
    assert_eq!(
        with_memory,
        vec![
            "args_get",
            "args_sizes_get",
            "environ_get",
            "environ_sizes_get",
            "clock_res_get",
            "clock_time_get",
            "fd_read",
            "fd_write",
            "poll_oneoff",
            "random_get",
            "sock_recv",
            "sock_send",
            "sock_shutdown",
        ]
    );
}

#[test]
fn signature_and_protocol_agree_for_every_operation() {
    for op in all_operations() {
        let sig = guest_signature(op);
        assert_eq!(sig.params.len(), op.params().len());
        let words = zero_words(&sig.params);
        let args = decode_arguments(op, &words).expect("words of the signature decode");
        assert_eq!(args.len(), sig.params.len());
        for (arg, ty) in args.iter().zip(op.params()) {
            assert_eq!(arg.native_type(), ty);
        }
        let result = match op.result() {
            ReturnType::Unit => NativeResult::Unit,
            ReturnType::Value(_) => NativeResult::Value(NativeValue::U16(0)),
        };
        let encoded: Vec<WordType> =
            encode_result(result).iter().map(|w| w.word_type()).collect();
        assert_eq!(encoded, sig.results);

        let mut longer = words.clone();
        longer.push(Word::W32(0));
        assert_eq!(decode_arguments(op, &longer), None);
        if !words.is_empty() {
            let mut flipped = words.clone();
            flipped[0] = match flipped[0] {
                Word::W32(_) => Word::W64(0),
                Word::W64(_) => Word::W32(0),
            };
            assert_eq!(decode_arguments(op, &flipped), None);
            assert_eq!(decode_arguments(op, &words[1..].to_vec()), None);
        }
    }
}
