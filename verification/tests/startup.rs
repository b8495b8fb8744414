use cen64_rs::cart_db::{cart_db_save_type, SaveOpen, SaveSlot, SaveWarning};
use cen64_rs::options::{cen64_options, Cen64Args};
use cen64_rs::startup::{Action, CartLookup, Event, Message, RomKind, Startup, EXIT_FAILURE};

fn args() -> Cen64Args {
    args_with_ipl(None)
}

fn args_with_ipl(ddipl: Option<&str>) -> Cen64Args {
    Cen64Args {
        debug: false,
        debugger_address: "127.0.0.1".to_string(),
        profile: false,
        multithread: false,
        ddipl: ddipl.map(|p| p.to_string()),
        ddrom: None,
        headless: false,
        noaudio: false,
        novideo: true,
        eep4k: None,
        eep16k: None,
        sram: None,
        is_viewer: false,
        controller: vec![],
        pif_rom: "pifdata.bin".to_string(),
        cart_rom: Some("game.z64".to_string()),
    }
}

fn lookup(save: cart_db_save_type) -> CartLookup {
    CartLookup { cart_size: 0x0100_0000, rom_id: Some(b"NSM".to_vec()), listed: save, header: vec![0u8; 0x40] }
}

/// A world in which every call succeeds unless told otherwise.
struct World {
    save: cart_db_save_type,
    fail: Option<Action>,
    fail_parse: bool,
    ddipl: Option<&'static str>,
    created: bool,
    device_status: i32,
}

impl World {
    fn ok(save: cart_db_save_type) -> World {
        World { save, fail: None, fail_parse: false, ddipl: None, created: false, device_status: 0 }
    }

    fn answer(&self, a: &Action) -> Event {
        let failing = self.fail.as_ref() == Some(a);
        match a {
            Action::CheckCartDb => Event::Checked(!failing),
            Action::InitAllocator | Action::CheckExtensions | Action::LoadRoms | Action::LoadPaks => {
                Event::Status(if failing { 1 } else { 0 })
            }
            Action::InitIsViewer { .. } => Event::Status(if failing { 0 } else { 1 }),
            Action::ParseArgs => Event::Parsed(if self.fail_parse { None } else { Some(args_with_ipl(self.ddipl)) }),
            Action::LookupCart => Event::CartFound(lookup(self.save)),
            Action::OpenSave(_) => Event::SaveOpened { status: if failing { 1 } else { 0 }, created: self.created },
            Action::AllocateDevice | Action::CreateDevice { .. } => Event::Allocated(!failing),
            Action::RunDevice { .. } => Event::Ran(self.device_status),
            _ => Event::Done,
        }
    }
}

fn run_with(options: cen64_options, world: &World) -> Vec<Action> {
    let (mut state, mut action) = Startup::begin(options);
    let mut log = vec![action];
    let mut guard = 0;
    while !matches!(action, Action::Exit(_)) {
        let e = world.answer(&action);
        let (s, a) = state.step(e);
        state = s;
        action = a;
        log.push(action);
        guard += 1;
        assert!(guard < 100);
    }
    log
}

fn run(world: &World) -> Vec<Action> {
    run_with(cen64_options::default(), world)
}

#[test]
fn a_full_run_without_save_memory() {
    let log = run(&World::ok(cart_db_save_type::CART_DB_SAVE_TYPE_NONE));
    assert_eq!(
        log,
        vec![
            Action::CheckCartDb,
            Action::InitAllocator,
            Action::CheckExtensions,
            Action::ParseArgs,
            Action::ClearFiles,
            Action::LoadRoms,
            Action::LookupCart,
            Action::ReportCart,
            Action::LoadPaks,
            Action::InitIsViewer { show_output: 0 },
            Action::AllocateDevice,
            Action::CreateDevice { no_audio: false, no_video: true, profiling: false },
            Action::RunDevice { multithread: false, no_video: true },
            Action::DestroyDevice,
            Action::FreeDeviceMemory,
            Action::CloseRom(RomKind::Cart),
            Action::CloseRom(RomKind::Pifrom),
            Action::CleanupAllocator,
            Action::Exit(0),
        ]
    );
}

#[test]
fn the_run_ends_with_the_device_status() {
    let mut w = World::ok(cart_db_save_type::CART_DB_SAVE_TYPE_NONE);
    w.device_status = 7;
    assert_eq!(*run(&w).last().unwrap(), Action::Exit(7));
}

#[test]
fn malformed_cart_db_is_reported_and_fails() {
    let mut w = World::ok(cart_db_save_type::CART_DB_SAVE_TYPE_NONE);
    w.fail = Some(Action::CheckCartDb);
    assert_eq!(
        run(&w),
        vec![Action::CheckCartDb, Action::Print(Message::CartDbMalformed), Action::Exit(EXIT_FAILURE)]
    );
    assert_eq!(Message::CartDbMalformed.text(), "Internal cart detection database is not well-formed.\n");
}

#[test]
fn allocator_setup_failure_is_reported_and_fails() {
    let mut w = World::ok(cart_db_save_type::CART_DB_SAVE_TYPE_NONE);
    w.fail = Some(Action::InitAllocator);
    assert_eq!(
        run(&w),
        vec![
            Action::CheckCartDb,
            Action::InitAllocator,
            Action::Print(Message::AllocatorInitFailed),
            Action::Exit(EXIT_FAILURE)
        ]
    );
}

#[test]
fn missing_cpu_extension_fails_at_once() {
    let mut w = World::ok(cart_db_save_type::CART_DB_SAVE_TYPE_NONE);
    w.fail = Some(Action::CheckExtensions);
    assert_eq!(
        run(&w),
        vec![Action::CheckCartDb, Action::InitAllocator, Action::CheckExtensions, Action::Exit(EXIT_FAILURE)]
    );
}

#[test]
fn unreadable_command_line_tears_down_and_fails() {
    let mut w = World::ok(cart_db_save_type::CART_DB_SAVE_TYPE_NONE);
    w.fail_parse = true;
    let log = run(&w);
    assert_eq!(&log[3..], &[Action::ParseArgs, Action::CleanupAllocator, Action::Exit(EXIT_FAILURE)]);
}

#[test]
fn failures_before_the_device_tear_down_and_fail() {
    for failing in [Action::LoadRoms, Action::LoadPaks, Action::InitIsViewer { show_output: 0 }] {
        let mut w = World::ok(cart_db_save_type::CART_DB_SAVE_TYPE_NONE);
        w.fail = Some(failing);
        let log = run(&w);
        let n = log.len();
        assert_eq!(log[n - 3], failing);
        assert_eq!(&log[n - 2..], &[Action::CleanupAllocator, Action::Exit(EXIT_FAILURE)]);
        assert!(!log.contains(&Action::AllocateDevice));
    }
}

#[test]
fn device_memory_failure_is_reported_and_roms_closed() {
    let mut w = World::ok(cart_db_save_type::CART_DB_SAVE_TYPE_NONE);
    w.fail = Some(Action::AllocateDevice);
    let log = run(&w);
    let n = log.len();
    assert_eq!(
        &log[n - 6..],
        &[
            Action::AllocateDevice,
            Action::Print(Message::DeviceAllocFailed),
            Action::CloseRom(RomKind::Cart),
            Action::CloseRom(RomKind::Pifrom),
            Action::CleanupAllocator,
            Action::Exit(EXIT_FAILURE),
        ]
    );
    assert_eq!(Message::DeviceAllocFailed.text(), "Failed to allocate enough memory for a device.\n");
}

#[test]
fn device_creation_failure_frees_memory_and_fails() {
    let mut w = World::ok(cart_db_save_type::CART_DB_SAVE_TYPE_NONE);
    w.fail = Some(Action::CreateDevice { no_audio: false, no_video: true, profiling: false });
    let log = run(&w);
    let n = log.len();
    assert_eq!(
        &log[n - 6..],
        &[
            Action::Print(Message::DeviceCreateFailed),
            Action::FreeDeviceMemory,
            Action::CloseRom(RomKind::Cart),
            Action::CloseRom(RomKind::Pifrom),
            Action::CleanupAllocator,
            Action::Exit(EXIT_FAILURE),
        ]
    );
    assert!(!log.contains(&Action::DestroyDevice));
}

#[test]
fn cart_save_without_file_warns_then_opens_in_memory() {
    let t = cart_db_save_type::CART_DB_SAVE_TYPE_SRAM_256KBIT;
    let log = run(&World::ok(t));
    let i = log.iter().position(|a| *a == Action::ReportCart).unwrap();
    assert_eq!(log[i + 1], Action::Print(Message::Save(SaveWarning::Missing(t))));
    assert_eq!(
        log[i + 2],
        Action::OpenSave(SaveOpen { slot: SaveSlot::Sram, with_path: false, size: 0x8000, report_created: false })
    );
    assert_eq!(log[i + 3], Action::LoadPaks);
}

#[test]
fn new_flashram_is_erased() {
    let mut w = World::ok(cart_db_save_type::CART_DB_SAVE_TYPE_FLASH_1MBIT);
    w.created = true;
    let log = run(&w);
    let i = log.iter().position(|a| matches!(a, Action::OpenSave(_))).unwrap();
    assert_eq!(log[i + 1], Action::FillFlashram);
    assert_eq!(log[i + 2], Action::LoadPaks);
}

#[test]
fn command_line_save_files_are_opened_in_order() {
    let mut o = cen64_options::default();
    o.eeprom_path = Some("a.eep".to_string());
    o.eeprom_size = 0x200;
    o.sram_path = Some("a.sra".to_string());
    o.sram_size = 0x8000;
    o.flashram_path = Some("a.fla".to_string());
    let mut w = World::ok(cart_db_save_type::CART_DB_SAVE_TYPE_NONE);
    w.ddipl = Some("ipl.n64");
    w.created = true;
    let log = run_with(o, &w);
    let i = log.iter().position(|a| *a == Action::LoadPaks).unwrap();
    assert_eq!(
        &log[i + 1..i + 6],
        &[
            Action::OpenSave(SaveOpen { slot: SaveSlot::Eeprom, with_path: true, size: 0x200, report_created: false }),
            Action::OpenSave(SaveOpen { slot: SaveSlot::Sram, with_path: true, size: 0x8000, report_created: false }),
            Action::OpenSave(SaveOpen { slot: SaveSlot::Flashram, with_path: true, size: 0x20000, report_created: true }),
            Action::FillFlashram,
            Action::InitIsViewer { show_output: 0 },
        ]
    );
    let n = log.len();
    assert_eq!(
        &log[n - 5..],
        &[
            Action::CloseRom(RomKind::Ddipl),
            Action::CloseRom(RomKind::Cart),
            Action::CloseRom(RomKind::Pifrom),
            Action::CleanupAllocator,
            Action::Exit(0),
        ]
    );
}

#[test]
fn failing_command_line_save_file_tears_down_and_fails() {
    let mut o = cen64_options::default();
    o.sram_path = Some("a.sra".to_string());
    o.sram_size = 0x8000;
    let mut w = World::ok(cart_db_save_type::CART_DB_SAVE_TYPE_NONE);
    w.fail = Some(Action::OpenSave(SaveOpen { slot: SaveSlot::Sram, with_path: true, size: 0x8000, report_created: false }));
    let log = run_with(o, &w);
    let n = log.len();
    assert_eq!(&log[n - 2..], &[Action::CleanupAllocator, Action::Exit(EXIT_FAILURE)]);
    assert!(!log.contains(&Action::AllocateDevice));
}

#[test]
fn small_cart_is_not_reported() {
    let (s, _) = Startup::begin(cen64_options::default());
    let (s, _) = s.step(Event::Checked(true));
    let (s, _) = s.step(Event::Status(0));
    let (s, _) = s.step(Event::Status(0));
    let (s, _) = s.step(Event::Parsed(Some(args())));
    let (s, _) = s.step(Event::Done);
    let (s, a) = s.step(Event::Status(0));
    assert_eq!(a, Action::LookupCart);
    let l = CartLookup {
        cart_size: 0x20,
        rom_id: Some(b"NK4".to_vec()),
        listed: cart_db_save_type::CART_DB_SAVE_TYPE_EEPROM_4KBIT,
        header: {
            let mut h = vec![0u8; 0x40];
            h[0x3e] = b'J';
            h
        },
    };
    let (s, a) = s.step(Event::CartFound(l));
    assert_eq!(
        a,
        Action::Print(Message::Save(SaveWarning::Missing(cart_db_save_type::CART_DB_SAVE_TYPE_SRAM_256KBIT)))
    );
    assert_eq!(s.options.cart_path, Some("game.z64".to_string()));
}
