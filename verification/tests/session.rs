use libtcc::call_back;
use libtcc::Context;
use libtcc::Error;
use libtcc::Guard;
use libtcc::OutputType;
use libtcc::Stage;
use std::sync::atomic::AtomicBool;

// Each test plays the engine's part itself: it hands the session the answers
// that the engine gives in the situation at hand.

type Silent = fn(&[u8]);

fn open<'a, 'g>(g: &'a mut Guard<'g>, handle: usize) -> Context<'a, 'g, Silent> {
    Context::new(g, handle).unwrap()
}

#[test]
fn set_call_back() {
    let flag = AtomicBool::new(true);
    let mut call_back_ret = None;
    let mut g = Guard::new(&flag).unwrap();
    let mut ctx = Context::new(&mut g, 0x1000).unwrap();
    ctx.set_call_back(Box::new(|_: &[u8]| call_back_ret = Some("called")));
    ctx.call_back(b"<string>:1: error: declaration expected");
    assert!(ctx.compile_string(-1).is_err());
    drop(ctx);
    assert_eq!(call_back_ret, Some("called"));
}

#[test]
fn context_null_handle_is_out_of_memory() {
    let flag = AtomicBool::new(true);
    let mut g = Guard::new(&flag).unwrap();
    let r: Result<Context<Silent>, Error> = Context::new(&mut g, 0);
    match r {
        Ok(_) => panic!("a context on a null handle"),
        Err(e) => assert_eq!(e, Error::OutOfMemory),
    }
}

#[test]
fn context_starts_created_with_memory_output() {
    let flag = AtomicBool::new(true);
    let mut g = Guard::new(&flag).unwrap();
    let ctx = open(&mut g, 0x2000);
    assert_eq!(ctx.handle(), 0x2000);
    assert_eq!(ctx.stage(), Stage::Created);
    assert_eq!(ctx.output_type(), OutputType::Memory);
    assert!(!ctx.has_call_back());
    assert!(!ctx.compilation_begun());
}

#[test]
fn context_configuration_chains() {
    let flag = AtomicBool::new(true);
    let mut g = Guard::new(&flag).unwrap();
    let mut ctx = open(&mut g, 0x2000);
    ctx.set_lib_path()
        .set_options()
        .add_include_path(0)
        .add_sys_include_path(0)
        .add_library_path(0)
        .define_symbol()
        .undefine_symbol()
        .set_output_type(OutputType::Obj, 0);
    assert_eq!(ctx.stage(), Stage::Configured);
    assert_eq!(ctx.output_type(), OutputType::Obj);
    assert_eq!(ctx.handle(), 0x2000);
}

#[test]
fn context_each_configuration_call_leaves_created() {
    let flag = AtomicBool::new(true);
    let mut g = Guard::new(&flag).unwrap();
    {
        let mut ctx = open(&mut g, 0x10);
        ctx.set_lib_path();
        assert_eq!(ctx.stage(), Stage::Configured);
    }
    {
        let mut ctx = open(&mut g, 0x10);
        ctx.add_symbol(0);
        assert_eq!(ctx.stage(), Stage::Configured);
    }
    {
        let mut ctx = open(&mut g, 0x10);
        assert_eq!(ctx.add_library(0), Ok(()));
        assert_eq!(ctx.stage(), Stage::Configured);
    }
    {
        let mut ctx = open(&mut g, 0x10);
        ctx.set_call_back(Box::new(|_: &[u8]| ()));
        assert_eq!(ctx.stage(), Stage::Configured);
        assert!(ctx.has_call_back());
    }
}

#[test]
fn context_compile_success_and_failure() {
    let flag = AtomicBool::new(true);
    let mut g = Guard::new(&flag).unwrap();
    let mut ctx = open(&mut g, 0x2000);
    assert_eq!(ctx.compile_string(0), Ok(()));
    assert_eq!(ctx.stage(), Stage::Compiled);
    assert_eq!(ctx.compile_string(-1), Err(Error::CompileError));
    assert_eq!(ctx.compile_string(1), Err(Error::CompileError));
    assert_eq!(ctx.add_file(0), Ok(()));
    assert_eq!(ctx.add_file(-1), Err(Error::CompileError));
    assert_eq!(ctx.stage(), Stage::Compiled);
    assert!(ctx.compilation_begun());
}

#[test]
fn context_failed_compile_begins_compilation_too() {
    let flag = AtomicBool::new(true);
    let mut g = Guard::new(&flag).unwrap();
    let mut ctx = open(&mut g, 0x2000);
    assert!(ctx.add_file(-1).is_err());
    assert_eq!(ctx.stage(), Stage::Compiled);
}

#[test]
fn context_configuring_between_units_keeps_the_stage() {
    let flag = AtomicBool::new(true);
    let mut g = Guard::new(&flag).unwrap();
    let mut ctx = open(&mut g, 0x2000);
    ctx.set_output_type(OutputType::Memory, 0).define_symbol();
    assert!(ctx.compile_string(0).is_ok());
    ctx.add_library_path(0);
    assert_eq!(ctx.add_library(0), Ok(()));
    ctx.undefine_symbol();
    assert_eq!(ctx.stage(), Stage::Compiled);
    assert!(ctx.compile_string(0).is_ok());
    assert_eq!(ctx.output_type(), OutputType::Memory);
}

#[test]
fn context_symbol_round_trip_as_the_engine_answers_it() {
    let flag = AtomicBool::new(true);
    let mut g = Guard::new(&flag).unwrap();
    let mut ctx = open(&mut g, 0x2000);
    ctx.define_symbol();
    assert!(ctx.compile_string(-1).is_err());
    ctx.undefine_symbol();
    assert!(ctx.compile_string(0).is_ok());
}

#[test]
fn context_missing_library_is_a_link_error() {
    let flag = AtomicBool::new(true);
    let mut g = Guard::new(&flag).unwrap();
    let mut ctx = open(&mut g, 0x2000);
    assert_eq!(ctx.add_library(-1), Err(Error::LinkError));
    assert_eq!(ctx.stage(), Stage::Configured);
}

#[test]
fn context_output_file_gives_the_handle_back() {
    let flag = AtomicBool::new(true);
    let mut g = Guard::new(&flag).unwrap();
    for kind in [OutputType::Exe, OutputType::Dll, OutputType::Obj] {
        let mut ctx = open(&mut g, 0x3000);
        ctx.set_output_type(kind, 0);
        assert!(ctx.compile_string(0).is_ok());
        let (handle, written) = ctx.output_file(0);
        assert_eq!(handle.addr(), 0x3000);
        assert_eq!(written, Ok(()));
    }
}

#[test]
fn context_output_file_failure_is_a_link_error() {
    let flag = AtomicBool::new(true);
    let mut g = Guard::new(&flag).unwrap();
    let mut ctx = open(&mut g, 0x3000);
    ctx.set_output_type(OutputType::Exe, 0);
    assert!(ctx.compile_string(0).is_ok());
    let (handle, written) = ctx.output_file(-1);
    assert_eq!(handle.addr(), 0x3000);
    assert_eq!(written, Err(Error::LinkError));
}

#[test]
fn context_close_gives_the_handle_back() {
    let flag = AtomicBool::new(true);
    let mut g = Guard::new(&flag).unwrap();
    let ctx = open(&mut g, 0x4000);
    assert_eq!(ctx.close().addr(), 0x4000);
}

#[test]
fn context_guard_is_free_for_the_next_session() {
    let flag = AtomicBool::new(true);
    let mut g = Guard::new(&flag).unwrap();
    let first = open(&mut g, 0x10);
    let (h1, _) = first.output_file(0);
    let second = open(&mut g, 0x20);
    assert_eq!(h1.addr(), 0x10);
    assert_eq!(second.handle(), 0x20);
}

#[test]
fn call_back_passes_the_message_on() {
    let mut seen: Vec<Vec<u8>> = Vec::new();
    {
        let mut f = |m: &[u8]| seen.push(m.to_vec());
        call_back(&mut f, b"warning: implicit declaration");
        call_back(&mut f, b"");
    }
    assert_eq!(seen, vec![b"warning: implicit declaration".to_vec(), Vec::new()]);
}

#[test]
fn context_call_back_collects_every_diagnostic() {
    let flag = AtomicBool::new(true);
    let mut log: Vec<String> = Vec::new();
    let mut g = Guard::new(&flag).unwrap();
    let mut ctx = Context::new(&mut g, 0x1000).unwrap();
    ctx.set_call_back(Box::new(|m: &[u8]| log.push(String::from_utf8_lossy(m).into_owned())));
    ctx.call_back(b"one");
    assert!(ctx.compile_string(-1).is_err());
    ctx.call_back(b"two");
    assert!(ctx.compile_string(0).is_ok());
    drop(ctx);
    assert_eq!(log, vec![String::from("one"), String::from("two")]);
}

#[test]
fn context_call_back_without_closure_does_nothing() {
    let flag = AtomicBool::new(true);
    let mut g = Guard::new(&flag).unwrap();
    let mut ctx = open(&mut g, 0x1000);
    ctx.call_back(b"nobody listens");
    assert!(!ctx.has_call_back());
    assert_eq!(ctx.stage(), Stage::Created);
}

#[test]
fn context_replaced_call_back_is_dropped_and_silent() {
    let flag = AtomicBool::new(true);
    let mut first: u32 = 0;
    let mut second: u32 = 0;
    let mut g = Guard::new(&flag).unwrap();
    let mut ctx: Context<Box<dyn FnMut(&[u8]) + '_>> = Context::new(&mut g, 0x1000).unwrap();
    ctx.set_call_back(Box::new(Box::new(|_: &[u8]| first += 1)));
    ctx.call_back(b"a");
    ctx.set_call_back(Box::new(Box::new(|_: &[u8]| second += 1)));
    ctx.call_back(b"b");
    ctx.call_back(b"c");
    drop(ctx);
    assert_eq!(first, 1);
    assert_eq!(second, 2);
}
