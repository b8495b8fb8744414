//! How a run of the emulator starts, runs the device and shuts down.
//!
//! The run alternates work on the outside world (the C core, files, memory)
//! with decisions. The decisions live here: a [`Startup`] value is the state of
//! a run; it names the [`Action`] to perform next, and [`Startup::step`] takes
//! the [`Event`] that answers that action and gives the next state and action,
//! until the action is [`Action::Exit`].
//!
//! Each state also carries, as a ghost value, what the run holds at that point
//! (the allocator, the ROM images, the device memory and the device). How each
//! action changes that is fixed by [`effect`], apart from the decisions, and the
//! laws below are stated over it.

use vstd::prelude::*;
use crate::cart_db::{
    actual_save_type, cart_db_save_type, cart_save_plan, effective_save_type, is_kirby_jp_id,
    plan_cart_save, SaveOpen, SaveSlot, SaveWarning,
};
use crate::options::{apply_args, cen64_options, options_with_args, Cen64Args};
use crate::pi::FLASHRAM_SIZE;

verus! {

/// The status a run exits with when it fails.
pub const EXIT_FAILURE: i32 = -1;

/// The ROM images of a run, in the order in which they are closed.
#[derive(Clone, Copy, Debug, PartialEq, Eq, Structural)]
pub enum RomKind {
    Ddipl,
    Ddrom,
    Cart,
    Pifrom,
}

/// A line the run prints.
#[derive(Clone, Copy, Debug, PartialEq, Eq, Structural)]
pub enum Message {
    CartDbMalformed,
    AllocatorInitFailed,
    Save(SaveWarning),
    DeviceAllocFailed,
    DeviceCreateFailed,
}

/// The text of each message.
pub open spec fn message_text(m: Message) -> &'static str {
    match m {
        Message::CartDbMalformed => "Internal cart detection database is not well-formed.\n",
        Message::AllocatorInitFailed => "Failed to initialize the low-level allocators.\n",
        Message::Save(w) => crate::cart_db::warning_text(w),
        Message::DeviceAllocFailed => "Failed to allocate enough memory for a device.\n",
        Message::DeviceCreateFailed => "Failed to create a device.\n",
    }
}

impl Message {
    /// The text printed for the message.
    pub fn text(&self) -> (r: &'static str)
        ensures
            r@ == message_text(*self)@,
    {
        match *self {
            Message::CartDbMalformed => "Internal cart detection database is not well-formed.\n",
            Message::AllocatorInitFailed => "Failed to initialize the low-level allocators.\n",
            Message::Save(w) => w.text(),
            Message::DeviceAllocFailed => "Failed to allocate enough memory for a device.\n",
            Message::DeviceCreateFailed => "Failed to create a device.\n",
        }
    }
}

/// What the run asks the outside world to do next.
#[derive(Clone, Copy, Debug, PartialEq, Eq, Structural)]
pub enum Action {
    /// Check that the built-in cartridge database is well-formed.
    CheckCartDb,
    /// Set up the low-level allocators.
    InitAllocator,
    /// Check that the host CPU has the extensions the core needs.
    CheckExtensions,
    /// Read the command line.
    ParseArgs,
    /// Clear the ROM, save and IS-Viewer records.
    ClearFiles,
    /// Load the 64DD IPL and disk ROMs, the PIF ROM and the cartridge.
    LoadRoms,
    /// Look the cartridge up in the cartridge database.
    LookupCart,
    /// Print the database entry of the detected cartridge.
    ReportCart,
    /// Print a line.
    Print(Message),
    /// Open a save file.
    OpenSave(SaveOpen),
    /// Erase a FlashRAM save: fill it with 0xFF.
    FillFlashram,
    /// Load the controller paks.
    LoadPaks,
    /// Set up the IS-Viewer 64.
    InitIsViewer { show_output: i32 },
    /// Reserve memory for the device.
    AllocateDevice,
    /// Create the device in that memory, with the IS-Viewer set up before.
    CreateDevice { no_audio: bool, no_video: bool, profiling: bool },
    /// Run the device until it stops.
    RunDevice { multithread: bool, no_video: bool },
    /// Destroy the device.
    DestroyDevice,
    /// Release the device's memory.
    FreeDeviceMemory,
    /// Close a ROM image.
    CloseRom(RomKind),
    /// Tear the low-level allocators down.
    CleanupAllocator,
    /// End the run with a status.
    Exit(i32),
}

/// What the cartridge database and the cartridge say about the cartridge: the
/// ROM's size, the identifier of the database entry (`None` where no entry
/// matched), the save memory the run was set to use, and the ROM's first bytes.
pub struct CartLookup {
    pub cart_size: usize,
    pub rom_id: Option<Vec<u8>>,
    pub listed: cart_db_save_type,
    pub header: Vec<u8>,
}

/// The outcome of the action performed last.
pub enum Event {
    /// The action is done and has nothing to report.
    Done,
    /// The answer of a check.
    Checked(bool),
    /// The status code of a call of the C core (0: success).
    Status(i32),
    /// The command line, or `None` where it could not be read.
    Parsed(Option<Cen64Args>),
    /// The cartridge lookup.
    CartFound(CartLookup),
    /// The status code of opening a save file, and whether it was newly created.
    SaveOpened { status: i32, created: bool },
    /// Whether the device memory, or the device, could be had.
    Allocated(bool),
    /// The status the device stopped with.
    Ran(i32),
}

/// Where a run stands: each stage waits for the outcome of one action.
#[derive(Clone, Copy, Debug, PartialEq, Eq, Structural)]
pub enum Stage {
    CheckingCartDb,
    ReportingFatal(Message),
    InitAllocator,
    CheckingExtensions,
    ParsingArgs,
    ClearingFiles,
    LoadingRoms,
    LookingUpCart,
    ReportingCart(cart_db_save_type),
    WarningSave(SaveWarning, SaveOpen),
    OpeningCartSave(SaveOpen),
    FillingCartFlash,
    LoadingPaks,
    OpeningEeprom,
    OpeningSram,
    OpeningFlash,
    FillingFlash,
    InitIsViewer,
    Allocating,
    ReportingAllocFailure,
    Creating,
    ReportingCreateFailure,
    Running,
    Destroying,
    Freeing,
    Closing(RomKind),
    Abandoning,
    Finishing,
    Exited(i32),
}

/// What a run holds: the allocator, each ROM image, the device memory and the
/// device; whether device memory was asked for; and the status the device
/// stopped with, once it ran.
pub struct Held {
    pub allocator: bool,
    pub ddipl: bool,
    pub ddrom: bool,
    pub cart: bool,
    pub pifrom: bool,
    pub device_memory: bool,
    pub device: bool,
    pub device_attempted: bool,
    pub ran: Option<i32>,
}

/// Nothing held: the start of a run.
pub open spec fn held_nothing() -> Held {
    Held {
        allocator: false,
        ddipl: false,
        ddrom: false,
        cart: false,
        pifrom: false,
        device_memory: false,
        device: false,
        device_attempted: false,
        ran: None,
    }
}

/// How an action, with its outcome, changes what a run holds. Setting the
/// allocator up or loading the ROMs takes them where the call succeeds (the
/// ROMs whose paths the options give, and the PIF ROM); the device memory and
/// the device are held where they could be had; tearing down, closing, freeing
/// and destroying give them back; running records the device's status.
pub open spec fn effect(h: Held, o: cen64_options, a: Action, e: Event) -> Held {
    match a {
        Action::InitAllocator => if e == Event::Status(0) { Held { allocator: true, ..h } } else { h },
        Action::CleanupAllocator => Held { allocator: false, ..h },
        Action::LoadRoms => if e == Event::Status(0) {
            Held {
                ddipl: o.ddipl_path is Some,
                ddrom: o.ddrom_path is Some,
                cart: o.cart_path is Some,
                pifrom: true,
                ..h
            }
        } else {
            h
        },
        Action::CloseRom(k) => match k {
            RomKind::Ddipl => Held { ddipl: false, ..h },
            RomKind::Ddrom => Held { ddrom: false, ..h },
            RomKind::Cart => Held { cart: false, ..h },
            RomKind::Pifrom => Held { pifrom: false, ..h },
        },
        Action::AllocateDevice => Held {
            device_attempted: true,
            device_memory: e == Event::Allocated(true),
            ..h
        },
        Action::FreeDeviceMemory => Held { device_memory: false, ..h },
        Action::CreateDevice { .. } => Held { device: e == Event::Allocated(true), ..h },
        Action::DestroyDevice => Held { device: false, ..h },
        Action::RunDevice { .. } => match e {
            Event::Ran(s) => Held { ran: Some(s), ..h },
            _ => h,
        },
        _ => h,
    }
}

/// The status a run ends with: the device's, where it ran; failure otherwise.
pub open spec fn exit_status(h: Held) -> i32 {
    match h.ran {
        Some(s) => s,
        None => EXIT_FAILURE,
    }
}

/// No ROM image is held.
pub open spec fn roms_none(h: Held) -> bool {
    !h.ddipl && !h.ddrom && !h.cart && !h.pifrom
}

/// The ROM images that loading opened are held: those whose paths are given,
/// and the PIF ROM.
pub open spec fn roms_loaded(h: Held, o: cen64_options) -> bool {
    &&& h.ddipl == o.ddipl_path is Some
    &&& h.ddrom == o.ddrom_path is Some
    &&& h.cart == o.cart_path is Some
    &&& h.pifrom
}

/// Neither device memory nor a device was had, and the device did not run.
pub open spec fn no_device(h: Held) -> bool {
    !h.device_memory && !h.device && !h.device_attempted && h.ran is None
}

/// The position of a ROM image in the order of closing.
pub open spec fn rom_rank(k: RomKind) -> int {
    match k {
        RomKind::Ddipl => 0,
        RomKind::Ddrom => 1,
        RomKind::Cart => 2,
        RomKind::Pifrom => 3,
    }
}

/// The stage that closes the ROM images from the one after `k` on, skipping
/// those that were not loaded; once all are closed, the allocator goes.
pub open spec fn release_after(k: RomKind, o: cen64_options) -> Stage {
    match k {
        RomKind::Ddipl => if o.ddrom_path is Some {
            Stage::Closing(RomKind::Ddrom)
        } else if o.cart_path is Some {
            Stage::Closing(RomKind::Cart)
        } else {
            Stage::Closing(RomKind::Pifrom)
        },
        RomKind::Ddrom => if o.cart_path is Some {
            Stage::Closing(RomKind::Cart)
        } else {
            Stage::Closing(RomKind::Pifrom)
        },
        RomKind::Cart => Stage::Closing(RomKind::Pifrom),
        RomKind::Pifrom => Stage::Finishing,
    }
}

/// The stage that starts releasing the ROM images.
pub open spec fn release_first(o: cen64_options) -> Stage {
    if o.ddipl_path is Some {
        Stage::Closing(RomKind::Ddipl)
    } else {
        release_after(RomKind::Ddipl, o)
    }
}

/// The stage that handles the save memory `t` of the cartridge: warn first
/// where the plan has a warning, open the file, or go on to the paks for a
/// cartridge without save memory.
pub open spec fn cart_save_stage(t: cart_db_save_type, o: cen64_options) -> Stage {
    match cart_save_plan(t, o) {
        None => Stage::LoadingPaks,
        Some(p) => match p.warning {
            Some(w) => Stage::WarningSave(w, p.open),
            None => Stage::OpeningCartSave(p.open),
        },
    }
}

/// After the save files given on the command line that come before it were
/// opened: the SRAM file if one is given, then FlashRAM if given, then the
/// IS-Viewer.
pub open spec fn after_sram(o: cen64_options) -> Stage {
    if o.flashram_path is Some { Stage::OpeningFlash } else { Stage::InitIsViewer }
}

pub open spec fn after_eeprom(o: cen64_options) -> Stage {
    if o.sram_path is Some { Stage::OpeningSram } else { after_sram(o) }
}

pub open spec fn after_paks(o: cen64_options) -> Stage {
    if o.eeprom_path is Some { Stage::OpeningEeprom } else { after_eeprom(o) }
}

/// The state of a run.
pub struct Startup {
    pub stage: Stage,
    pub options: cen64_options,
    pub status: i32,
    pub held: Ghost<Held>,
}

impl Startup {
    /// The action the run waits on in its stage.
    pub open spec fn awaited(self) -> Action {
        let o = self.options;
        match self.stage {
            Stage::CheckingCartDb => Action::CheckCartDb,
            Stage::ReportingFatal(m) => Action::Print(m),
            Stage::InitAllocator => Action::InitAllocator,
            Stage::CheckingExtensions => Action::CheckExtensions,
            Stage::ParsingArgs => Action::ParseArgs,
            Stage::ClearingFiles => Action::ClearFiles,
            Stage::LoadingRoms => Action::LoadRoms,
            Stage::LookingUpCart => Action::LookupCart,
            Stage::ReportingCart(_) => Action::ReportCart,
            Stage::WarningSave(w, _) => Action::Print(Message::Save(w)),
            Stage::OpeningCartSave(open) => Action::OpenSave(open),
            Stage::FillingCartFlash => Action::FillFlashram,
            Stage::LoadingPaks => Action::LoadPaks,
            Stage::OpeningEeprom => Action::OpenSave(
                SaveOpen { slot: SaveSlot::Eeprom, with_path: true, size: o.eeprom_size, report_created: false },
            ),
            Stage::OpeningSram => Action::OpenSave(
                SaveOpen { slot: SaveSlot::Sram, with_path: true, size: o.sram_size, report_created: false },
            ),
            Stage::OpeningFlash => Action::OpenSave(
                SaveOpen {
                    slot: SaveSlot::Flashram,
                    with_path: true,
                    size: FLASHRAM_SIZE as usize,
                    report_created: true,
                },
            ),
            Stage::FillingFlash => Action::FillFlashram,
            Stage::InitIsViewer => Action::InitIsViewer { show_output: o.is_viewer_output },
            Stage::Allocating => Action::AllocateDevice,
            Stage::ReportingAllocFailure => Action::Print(Message::DeviceAllocFailed),
            Stage::Creating => Action::CreateDevice {
                no_audio: o.no_audio,
                no_video: o.no_video,
                profiling: o.enable_profiling,
            },
            Stage::ReportingCreateFailure => Action::Print(Message::DeviceCreateFailed),
            Stage::Running => Action::RunDevice { multithread: o.multithread, no_video: o.no_video },
            Stage::Destroying => Action::DestroyDevice,
            Stage::Freeing => Action::FreeDeviceMemory,
            Stage::Closing(k) => Action::CloseRom(k),
            Stage::Abandoning => Action::CleanupAllocator,
            Stage::Finishing => Action::CleanupAllocator,
            Stage::Exited(s) => Action::Exit(s),
        }
    }

    /// Whether an event is an outcome of the awaited action that the run can
    /// go on from. A command line without a cartridge, a cartridge the
    /// database does not know, and a device created while a debugger address
    /// is set are not: the run cannot go on from them. Nothing answers the
    /// exit.
    pub open spec fn accepts(self, e: Event) -> bool {
        match self.stage {
            Stage::CheckingCartDb => e is Checked,
            Stage::InitAllocator => e is Status,
            Stage::CheckingExtensions => e is Status,
            Stage::LoadingRoms => e is Status,
            Stage::LoadingPaks => e is Status,
            Stage::InitIsViewer => e is Status,
            Stage::ParsingArgs => match e {
                Event::Parsed(Some(a)) => a.cart_rom is Some,
                Event::Parsed(None) => true,
                _ => false,
            },
            Stage::LookingUpCart => match e {
                Event::CartFound(l) => match l.rom_id {
                    Some(id) => is_kirby_jp_id(id@) ==> l.header@.len() >= 0x40,
                    None => false,
                },
                _ => false,
            },
            Stage::OpeningCartSave(_) => e is SaveOpened,
            Stage::OpeningEeprom => e is SaveOpened,
            Stage::OpeningSram => e is SaveOpened,
            Stage::OpeningFlash => e is SaveOpened,
            Stage::Allocating => e is Allocated,
            Stage::Creating => match e {
                Event::Allocated(ok) => ok ==> self.options.debugger_addr is None,
                _ => false,
            },
            Stage::Running => e is Ran,
            Stage::Exited(_) => false,
            _ => e is Done,
        }
    }

    /// The stage a run goes to from its stage on an event.
    ///
    /// The checks of the cartridge database, the allocator and the CPU come
    /// first; a failed one ends the run (the first two with a message). Then
    /// the command line is read, the records cleared and the ROMs loaded.
    /// The detected cartridge is reported where its ROM holds a full header,
    /// and its save memory opened as [`cart_save_plan`] says, a new FlashRAM
    /// erased. The paks are loaded, and the EEPROM, SRAM and FlashRAM files
    /// given on the command line opened, a new FlashRAM again erased; then the
    /// IS-Viewer is set up. A failure among these tears the allocator down
    /// and ends the run. Then device memory is reserved, the device created,
    /// run, destroyed and its memory freed (a failure is reported and skips
    /// what it prevents); the ROMs are closed, the allocator torn down and
    /// the run ends with its status.
    pub open spec fn next_stage(self, e: Event) -> Stage {
        let o = self.options;
        match self.stage {
            Stage::CheckingCartDb => match e {
                Event::Checked(true) => Stage::InitAllocator,
                _ => Stage::ReportingFatal(Message::CartDbMalformed),
            },
            Stage::ReportingFatal(_) => Stage::Exited(EXIT_FAILURE),
            Stage::InitAllocator => if e == Event::Status(0) {
                Stage::CheckingExtensions
            } else {
                Stage::ReportingFatal(Message::AllocatorInitFailed)
            },
            Stage::CheckingExtensions => if e == Event::Status(0) {
                Stage::ParsingArgs
            } else {
                Stage::Exited(EXIT_FAILURE)
            },
            Stage::ParsingArgs => match e {
                Event::Parsed(Some(_)) => Stage::ClearingFiles,
                _ => Stage::Abandoning,
            },
            Stage::ClearingFiles => Stage::LoadingRoms,
            Stage::LoadingRoms => if e == Event::Status(0) {
                Stage::LookingUpCart
            } else {
                Stage::Abandoning
            },
            Stage::LookingUpCart => match e {
                Event::CartFound(l) => {
                    let t = actual_save_type(l.rom_id.unwrap()@, l.header@, l.listed);
                    if l.cart_size >= 0x40 {
                        Stage::ReportingCart(t)
                    } else {
                        cart_save_stage(t, o)
                    }
                },
                _ => self.stage,
            },
            Stage::ReportingCart(t) => cart_save_stage(t, o),
            Stage::WarningSave(_, open) => Stage::OpeningCartSave(open),
            Stage::OpeningCartSave(open) => match e {
                Event::SaveOpened { created, .. } => if open.report_created && created {
                    Stage::FillingCartFlash
                } else {
                    Stage::LoadingPaks
                },
                _ => self.stage,
            },
            Stage::FillingCartFlash => Stage::LoadingPaks,
            Stage::LoadingPaks => if e == Event::Status(0) {
                after_paks(o)
            } else {
                Stage::Abandoning
            },
            Stage::OpeningEeprom => match e {
                Event::SaveOpened { status, .. } => if status == 0 {
                    after_eeprom(o)
                } else {
                    Stage::Abandoning
                },
                _ => self.stage,
            },
            Stage::OpeningSram => match e {
                Event::SaveOpened { status, .. } => if status == 0 {
                    after_sram(o)
                } else {
                    Stage::Abandoning
                },
                _ => self.stage,
            },
            Stage::OpeningFlash => match e {
                Event::SaveOpened { status, created } => if status != 0 {
                    Stage::Abandoning
                } else if created {
                    Stage::FillingFlash
                } else {
                    Stage::InitIsViewer
                },
                _ => self.stage,
            },
            Stage::FillingFlash => Stage::InitIsViewer,
            Stage::InitIsViewer => if e == Event::Status(0) {
                Stage::Abandoning
            } else {
                Stage::Allocating
            },
            Stage::Allocating => if e == Event::Allocated(true) {
                Stage::Creating
            } else {
                Stage::ReportingAllocFailure
            },
            Stage::ReportingAllocFailure => release_first(o),
            Stage::Creating => if e == Event::Allocated(true) {
                Stage::Running
            } else {
                Stage::ReportingCreateFailure
            },
            Stage::ReportingCreateFailure => Stage::Freeing,
            Stage::Running => Stage::Destroying,
            Stage::Destroying => Stage::Freeing,
            Stage::Freeing => release_first(o),
            Stage::Closing(k) => release_after(k, o),
            Stage::Abandoning => Stage::Exited(EXIT_FAILURE),
            Stage::Finishing => Stage::Exited(self.status),
            Stage::Exited(s) => Stage::Exited(s),
        }
    }

    /// The options after an event: the command line sets them.
    pub open spec fn next_options(self, e: Event) -> cen64_options {
        match (self.stage, e) {
            (Stage::ParsingArgs, Event::Parsed(Some(a))) => options_with_args(self.options, a),
            _ => self.options,
        }
    }

    /// The run's status after an event: failure where the device could not be
    /// had or created, the device's status once it ran.
    pub open spec fn next_status(self, e: Event) -> i32 {
        match self.stage {
            Stage::ReportingAllocFailure => EXIT_FAILURE,
            Stage::ReportingCreateFailure => EXIT_FAILURE,
            Stage::Running => match e {
                Event::Ran(s) => s,
                _ => self.status,
            },
            _ => self.status,
        }
    }

    /// What the run holds after an event: the effect of the awaited action.
    pub open spec fn next_held(self, e: Event) -> Held {
        effect(self.held@, self.options, self.awaited(), e)
    }

    /// What a run holds in each stage, and the status it carries.
    pub open spec fn inv(self) -> bool {
        let h = self.held@;
        let o = self.options;
        match self.stage {
            Stage::CheckingCartDb | Stage::InitAllocator | Stage::ReportingFatal(_) =>
                h == held_nothing(),
            Stage::CheckingExtensions | Stage::ParsingArgs | Stage::ClearingFiles | Stage::LoadingRoms => {
                &&& h.allocator
                &&& roms_none(h)
                &&& no_device(h)
            },
            Stage::Abandoning => h.allocator && no_device(h),
            Stage::WarningSave(_, open) | Stage::OpeningCartSave(open) => {
                &&& h.allocator
                &&& roms_loaded(h, o)
                &&& no_device(h)
                &&& open.report_created == (open.slot == SaveSlot::Flashram)
            },
            Stage::LookingUpCart | Stage::ReportingCart(_) | Stage::FillingCartFlash | Stage::LoadingPaks
            | Stage::OpeningEeprom | Stage::OpeningSram | Stage::OpeningFlash
            | Stage::FillingFlash | Stage::InitIsViewer | Stage::Allocating => {
                &&& h.allocator
                &&& roms_loaded(h, o)
                &&& no_device(h)
            },
            Stage::ReportingAllocFailure => {
                &&& h.allocator
                &&& roms_loaded(h, o)
                &&& h.device_attempted
                &&& !h.device_memory
                &&& !h.device
                &&& h.ran is None
            },
            Stage::Creating | Stage::ReportingCreateFailure => {
                &&& h.allocator
                &&& roms_loaded(h, o)
                &&& h.device_attempted
                &&& h.device_memory
                &&& !h.device
                &&& h.ran is None
            },
            Stage::Running => {
                &&& h.allocator
                &&& roms_loaded(h, o)
                &&& h.device_attempted
                &&& h.device_memory
                &&& h.device
                &&& h.ran is None
            },
            Stage::Destroying => {
                &&& h.allocator
                &&& roms_loaded(h, o)
                &&& h.device_attempted
                &&& h.device_memory
                &&& h.device
                &&& h.ran == Some(self.status)
            },
            Stage::Freeing => {
                &&& h.allocator
                &&& roms_loaded(h, o)
                &&& h.device_attempted
                &&& h.device_memory
                &&& !h.device
                &&& self.status == exit_status(h)
            },
            Stage::Closing(k) => {
                &&& h.allocator
                &&& h.device_attempted
                &&& !h.device_memory
                &&& !h.device
                &&& self.status == exit_status(h)
                &&& h.ddipl == (o.ddipl_path is Some && rom_rank(k) <= 0)
                &&& h.ddrom == (o.ddrom_path is Some && rom_rank(k) <= 1)
                &&& h.cart == (o.cart_path is Some && rom_rank(k) <= 2)
                &&& h.pifrom
            },
            Stage::Finishing => {
                &&& h.allocator
                &&& h.device_attempted
                &&& !h.device_memory
                &&& !h.device
                &&& roms_none(h)
                &&& self.status == exit_status(h)
            },
            Stage::Exited(_) => true,
        }
    }
}

fn release_after_exec(k: RomKind, o: &cen64_options) -> (r: Stage)
    ensures
        r == release_after(k, *o),
{
    match k {
        RomKind::Ddipl => if o.ddrom_path.is_some() {
            Stage::Closing(RomKind::Ddrom)
        } else if o.cart_path.is_some() {
            Stage::Closing(RomKind::Cart)
        } else {
            Stage::Closing(RomKind::Pifrom)
        },
        RomKind::Ddrom => if o.cart_path.is_some() {
            Stage::Closing(RomKind::Cart)
        } else {
            Stage::Closing(RomKind::Pifrom)
        },
        RomKind::Cart => Stage::Closing(RomKind::Pifrom),
        RomKind::Pifrom => Stage::Finishing,
    }
}

fn release_first_exec(o: &cen64_options) -> (r: Stage)
    ensures
        r == release_first(*o),
{
    if o.ddipl_path.is_some() {
        Stage::Closing(RomKind::Ddipl)
    } else {
        release_after_exec(RomKind::Ddipl, o)
    }
}

fn cart_save_stage_exec(t: cart_db_save_type, o: &cen64_options) -> (r: Stage)
    ensures
        r == cart_save_stage(t, *o),
{
    match plan_cart_save(t, o) {
        None => Stage::LoadingPaks,
        Some(p) => match p.warning {
            Some(w) => Stage::WarningSave(w, p.open),
            None => Stage::OpeningCartSave(p.open),
        },
    }
}

fn after_sram_exec(o: &cen64_options) -> (r: Stage)
    ensures
        r == after_sram(*o),
{
    if o.flashram_path.is_some() { Stage::OpeningFlash } else { Stage::InitIsViewer }
}

fn after_eeprom_exec(o: &cen64_options) -> (r: Stage)
    ensures
        r == after_eeprom(*o),
{
    if o.sram_path.is_some() { Stage::OpeningSram } else { after_sram_exec(o) }
}

fn after_paks_exec(o: &cen64_options) -> (r: Stage)
    ensures
        r == after_paks(*o),
{
    if o.eeprom_path.is_some() { Stage::OpeningEeprom } else { after_eeprom_exec(o) }
}

impl Startup {
    /// The action the run waits on.
    pub fn action(&self) -> (r: Action)
        ensures
            r == self.awaited(),
    {
        let o = &self.options;
        match self.stage {
            Stage::CheckingCartDb => Action::CheckCartDb,
            Stage::ReportingFatal(m) => Action::Print(m),
            Stage::InitAllocator => Action::InitAllocator,
            Stage::CheckingExtensions => Action::CheckExtensions,
            Stage::ParsingArgs => Action::ParseArgs,
            Stage::ClearingFiles => Action::ClearFiles,
            Stage::LoadingRoms => Action::LoadRoms,
            Stage::LookingUpCart => Action::LookupCart,
            Stage::ReportingCart(_) => Action::ReportCart,
            Stage::WarningSave(w, _) => Action::Print(Message::Save(w)),
            Stage::OpeningCartSave(open) => Action::OpenSave(open),
            Stage::FillingCartFlash => Action::FillFlashram,
            Stage::LoadingPaks => Action::LoadPaks,
            Stage::OpeningEeprom => Action::OpenSave(
                SaveOpen { slot: SaveSlot::Eeprom, with_path: true, size: o.eeprom_size, report_created: false },
            ),
            Stage::OpeningSram => Action::OpenSave(
                SaveOpen { slot: SaveSlot::Sram, with_path: true, size: o.sram_size, report_created: false },
            ),
            Stage::OpeningFlash => Action::OpenSave(
                SaveOpen {
                    slot: SaveSlot::Flashram,
                    with_path: true,
                    size: FLASHRAM_SIZE as usize,
                    report_created: true,
                },
            ),
            Stage::FillingFlash => Action::FillFlashram,
            Stage::InitIsViewer => Action::InitIsViewer { show_output: o.is_viewer_output },
            Stage::Allocating => Action::AllocateDevice,
            Stage::ReportingAllocFailure => Action::Print(Message::DeviceAllocFailed),
            Stage::Creating => Action::CreateDevice {
                no_audio: o.no_audio,
                no_video: o.no_video,
                profiling: o.enable_profiling,
            },
            Stage::ReportingCreateFailure => Action::Print(Message::DeviceCreateFailed),
            Stage::Running => Action::RunDevice { multithread: o.multithread, no_video: o.no_video },
            Stage::Destroying => Action::DestroyDevice,
            Stage::Freeing => Action::FreeDeviceMemory,
            Stage::Closing(k) => Action::CloseRom(k),
            Stage::Abandoning => Action::CleanupAllocator,
            Stage::Finishing => Action::CleanupAllocator,
            Stage::Exited(s) => Action::Exit(s),
        }
    }

    /// Starts a run with the options set before the command line is read,
    /// holding nothing, with status 0; its first action checks the cartridge
    /// database.
    pub fn begin(options: cen64_options) -> (r: (Startup, Action))
        ensures
            r.0.stage == Stage::CheckingCartDb,
            r.0.options == options,
            r.0.status == 0,
            r.0.held@ == held_nothing(),
            r.1 == r.0.awaited(),
            r.1 == Action::CheckCartDb,
            r.0.inv(),
    {
        let s = Startup { stage: Stage::CheckingCartDb, options, status: 0, held: Ghost(held_nothing()) };
        (s, Action::CheckCartDb)
    }

    /// Takes the outcome of the awaited action and moves the run on: the next
    /// state, as [`Startup::next_stage`], [`Startup::next_options`],
    /// [`Startup::next_status`] and [`Startup::next_held`] give it, and the
    /// action it awaits.
    pub fn step(self, e: Event) -> (r: (Startup, Action))
        requires
            self.inv(),
            self.accepts(e),
        ensures
            r.0.stage == self.next_stage(e),
            r.0.options == self.next_options(e),
            r.0.status == self.next_status(e),
            r.0.held@ == self.next_held(e),
            r.1 == r.0.awaited(),
            r.0.inv(),
    {
        let ghost h2 = self.next_held(e);
        let Startup { stage, options, status, held: _ } = self;
        let (stage2, options2, status2): (Stage, cen64_options, i32) = match stage {
            Stage::CheckingCartDb => match e {
                Event::Checked(true) => (Stage::InitAllocator, options, status),
                _ => (Stage::ReportingFatal(Message::CartDbMalformed), options, status),
            },
            Stage::ReportingFatal(_) => (Stage::Exited(EXIT_FAILURE), options, status),
            Stage::InitAllocator => match e {
                Event::Status(0) => (Stage::CheckingExtensions, options, status),
                _ => (Stage::ReportingFatal(Message::AllocatorInitFailed), options, status),
            },
            Stage::CheckingExtensions => match e {
                Event::Status(0) => (Stage::ParsingArgs, options, status),
                _ => (Stage::Exited(EXIT_FAILURE), options, status),
            },
            Stage::ParsingArgs => match e {
                Event::Parsed(Some(a)) => (Stage::ClearingFiles, apply_args(options, a), status),
                _ => (Stage::Abandoning, options, status),
            },
            Stage::ClearingFiles => (Stage::LoadingRoms, options, status),
            Stage::LoadingRoms => match e {
                Event::Status(0) => (Stage::LookingUpCart, options, status),
                _ => (Stage::Abandoning, options, status),
            },
            Stage::LookingUpCart => match e {
                Event::CartFound(l) => {
                    let CartLookup { cart_size, rom_id, listed, header } = l;
                    let id = rom_id.unwrap();
                    let t = effective_save_type(id.as_slice(), header.as_slice(), listed);
                    if cart_size >= 0x40 {
                        (Stage::ReportingCart(t), options, status)
                    } else {
                        let next = cart_save_stage_exec(t, &options);
                        (next, options, status)
                    }
                },
                _ => (stage, options, status),
            },
            Stage::ReportingCart(t) => {
                let next = cart_save_stage_exec(t, &options);
                (next, options, status)
            },
            Stage::WarningSave(_, open) => (Stage::OpeningCartSave(open), options, status),
            Stage::OpeningCartSave(open) => match e {
                Event::SaveOpened { created, .. } => if open.report_created && created {
                    (Stage::FillingCartFlash, options, status)
                } else {
                    (Stage::LoadingPaks, options, status)
                },
                _ => (stage, options, status),
            },
            Stage::FillingCartFlash => (Stage::LoadingPaks, options, status),
            Stage::LoadingPaks => match e {
                Event::Status(0) => {
                    let next = after_paks_exec(&options);
                    (next, options, status)
                },
                _ => (Stage::Abandoning, options, status),
            },
            Stage::OpeningEeprom => match e {
                Event::SaveOpened { status: 0, .. } => {
                    let next = after_eeprom_exec(&options);
                    (next, options, status)
                },
                Event::SaveOpened { .. } => (Stage::Abandoning, options, status),
                _ => (stage, options, status),
            },
            Stage::OpeningSram => match e {
                Event::SaveOpened { status: 0, .. } => {
                    let next = after_sram_exec(&options);
                    (next, options, status)
                },
                Event::SaveOpened { .. } => (Stage::Abandoning, options, status),
                _ => (stage, options, status),
            },
            Stage::OpeningFlash => match e {
                Event::SaveOpened { status: 0, created: true } => (Stage::FillingFlash, options, status),
                Event::SaveOpened { status: 0, created: false } => (Stage::InitIsViewer, options, status),
                Event::SaveOpened { .. } => (Stage::Abandoning, options, status),
                _ => (stage, options, status),
            },
            Stage::FillingFlash => (Stage::InitIsViewer, options, status),
            Stage::InitIsViewer => match e {
                Event::Status(0) => (Stage::Abandoning, options, status),
                _ => (Stage::Allocating, options, status),
            },
            Stage::Allocating => match e {
                Event::Allocated(true) => (Stage::Creating, options, status),
                _ => (Stage::ReportingAllocFailure, options, status),
            },
            Stage::ReportingAllocFailure => {
                let next = release_first_exec(&options);
                (next, options, EXIT_FAILURE)
            },
            Stage::Creating => match e {
                Event::Allocated(true) => (Stage::Running, options, status),
                _ => (Stage::ReportingCreateFailure, options, status),
            },
            Stage::ReportingCreateFailure => (Stage::Freeing, options, EXIT_FAILURE),
            Stage::Running => match e {
                Event::Ran(s) => (Stage::Destroying, options, s),
                _ => (Stage::Destroying, options, status),
            },
            Stage::Destroying => (Stage::Freeing, options, status),
            Stage::Freeing => {
                let next = release_first_exec(&options);
                (next, options, status)
            },
            Stage::Closing(k) => {
                let next = release_after_exec(k, &options);
                (next, options, status)
            },
            Stage::Abandoning => (Stage::Exited(EXIT_FAILURE), options, status),
            Stage::Finishing => (Stage::Exited(status), options, status),
            Stage::Exited(s) => (Stage::Exited(s), options, status),
        };
        let next = Startup { stage: stage2, options: options2, status: status2, held: Ghost(h2) };
        let a = next.action();
        (next, a)
    }
}

/// When a run ends, the allocator has been torn down — on every path but the
/// one where the host CPU lacks an extension, which ends the run at once.
pub proof fn law_exit_tears_down_allocator(s: Startup, e: Event)
    requires
        s.inv(),
        s.accepts(e),
        s.next_stage(e) is Exited,
        !(s.stage is CheckingExtensions),
    ensures
        !s.next_held(e).allocator,
{
}

/// When a run ends, no device and no device memory is held: what was created is
/// destroyed and what was reserved is freed.
pub proof fn law_exit_releases_device(s: Startup, e: Event)
    requires
        s.inv(),
        s.accepts(e),
        s.next_stage(e) is Exited,
    ensures
        !s.next_held(e).device,
        !s.next_held(e).device_memory,
{
}

/// A run that got as far as asking for device memory closes every ROM image it
/// loaded before it ends.
pub proof fn law_exit_after_device_closes_roms(s: Startup, e: Event)
    requires
        s.inv(),
        s.accepts(e),
        s.next_stage(e) is Exited,
        s.next_held(e).device_attempted,
    ensures
        roms_none(s.next_held(e)),
{
}

/// A run ends with the status the device stopped with, where the device ran,
/// and with failure otherwise.
pub proof fn law_exit_status(s: Startup, e: Event, code: i32)
    requires
        s.inv(),
        s.accepts(e),
        s.next_stage(e) == Stage::Exited(code),
    ensures
        code == exit_status(s.next_held(e)),
{
}

/// A FlashRAM save that a run newly creates, for the cartridge or from the
/// command line, is erased (filled with 0xFF) before the run goes on.
pub proof fn law_new_flashram_is_erased(s: Startup, e: Event)
    requires
        s.inv(),
        s.accepts(e),
        s.awaited() matches Action::OpenSave(open) && open.slot == SaveSlot::Flashram,
        e matches Event::SaveOpened { status, created } && created && status == 0,
    ensures
        (Startup { stage: s.next_stage(e), options: s.next_options(e), status: s.next_status(e), held: s.held }).awaited()
            == Action::FillFlashram,
{
}

/// The actions that carry settings take them from the run's options: the
/// device runs threaded exactly when the options ask for it and without video
/// exactly when they do; it is created with the options' audio, video and
/// profiling switches; the IS-Viewer is set up with the options' output
/// switch; and the save files the command line names are opened with the
/// sizes the options give (FlashRAM at its fixed size, reporting creation).
pub proof fn law_actions_carry_options(s: Startup)
    ensures
        s.stage == Stage::Running ==> s.awaited()
            == (Action::RunDevice { multithread: s.options.multithread, no_video: s.options.no_video }),
        s.stage == Stage::Creating ==> s.awaited() == (Action::CreateDevice {
            no_audio: s.options.no_audio,
            no_video: s.options.no_video,
            profiling: s.options.enable_profiling,
        }),
        s.stage == Stage::InitIsViewer ==> s.awaited()
            == (Action::InitIsViewer { show_output: s.options.is_viewer_output }),
        s.stage == Stage::OpeningEeprom ==> s.awaited() == Action::OpenSave(
            SaveOpen { slot: SaveSlot::Eeprom, with_path: true, size: s.options.eeprom_size, report_created: false },
        ),
        s.stage == Stage::OpeningSram ==> s.awaited() == Action::OpenSave(
            SaveOpen { slot: SaveSlot::Sram, with_path: true, size: s.options.sram_size, report_created: false },
        ),
        s.stage == Stage::OpeningFlash ==> s.awaited() == Action::OpenSave(
            SaveOpen { slot: SaveSlot::Flashram, with_path: true, size: 0x20000, report_created: true },
        ),
{
}

/// The options change only when the command line is read, and then take from
/// it the ROMs, the profiling, IS-Viewer, threading, audio and video switches.
pub proof fn law_options_come_from_command_line(s: Startup, e: Event)
    requires
        s.accepts(e),
    ensures
        !(s.stage is ParsingArgs) ==> s.next_options(e) == s.options,
        s.stage is ParsingArgs ==> match e {
            Event::Parsed(Some(a)) => {
                let o = s.next_options(e);
                &&& o.pifrom_path == Some(a.pif_rom)
                &&& o.cart_path == a.cart_rom
                &&& o.ddipl_path == a.ddipl
                &&& o.ddrom_path == a.ddrom
                &&& o.multithread == a.multithread
                &&& o.no_audio == a.noaudio
                &&& o.no_video == a.novideo
                &&& o.enable_profiling == a.profile
                &&& o.is_viewer_output == (if a.is_viewer { 1i32 } else { 0i32 })
            },
            _ => s.next_options(e) == s.options,
        },
{
}

/// A call of the C core that reports failure ends the run: a malformed
/// cartridge database or allocator setup is reported first; a missing CPU
/// extension ends it at once; failed ROM loading, paks, save files given on
/// the command line, or IS-Viewer setup (which reports failure with 0) tear
/// the allocator down first. Success goes on to the next step.
pub proof fn law_failed_calls_end_run(s: Startup, e: Event)
    requires
        s.accepts(e),
    ensures
        s.stage == Stage::CheckingCartDb ==> (s.next_stage(e) == if e == Event::Checked(true) {
            Stage::InitAllocator
        } else {
            Stage::ReportingFatal(Message::CartDbMalformed)
        }),
        s.stage == Stage::InitAllocator ==> (s.next_stage(e) == if e == Event::Status(0) {
            Stage::CheckingExtensions
        } else {
            Stage::ReportingFatal(Message::AllocatorInitFailed)
        }),
        s.stage == Stage::CheckingExtensions ==> (s.next_stage(e) == if e == Event::Status(0) {
            Stage::ParsingArgs
        } else {
            Stage::Exited(EXIT_FAILURE)
        }),
        s.stage == Stage::ParsingArgs ==> ((s.next_stage(e) == Stage::Abandoning) == (e == Event::Parsed(None))),
        s.stage == Stage::LoadingRoms ==> ((s.next_stage(e) == Stage::Abandoning) == (e != Event::Status(0))),
        s.stage == Stage::LoadingPaks ==> ((s.next_stage(e) == Stage::Abandoning) == (e != Event::Status(0))),
        s.stage == Stage::OpeningEeprom || s.stage == Stage::OpeningSram || s.stage == Stage::OpeningFlash
            ==> ((s.next_stage(e) == Stage::Abandoning) == !(e matches Event::SaveOpened { status, .. } && status == 0)),
        s.stage == Stage::InitIsViewer ==> (s.next_stage(e) == if e == Event::Status(0) {
            Stage::Abandoning
        } else {
            Stage::Allocating
        }),
        s.stage == Stage::Allocating ==> (s.next_stage(e) == if e == Event::Allocated(true) {
            Stage::Creating
        } else {
            Stage::ReportingAllocFailure
        }),
        s.stage == Stage::Creating ==> (s.next_stage(e) == if e == Event::Allocated(true) {
            Stage::Running
        } else {
            Stage::ReportingCreateFailure
        }),
        s.stage == Stage::Abandoning ==> s.next_stage(e) == Stage::Exited(EXIT_FAILURE),
{
}

/// The cartridge's save memory is handled as its plan says, for the save
/// memory the cartridge really uses: a warning first where the plan has one,
/// then the file opened as the plan says; a cartridge without save memory goes
/// on to the paks. The detected cartridge is reported first where its ROM holds
/// a full header.
pub proof fn law_cart_save_follows_plan(s: Startup, e: Event)
    requires
        s.accepts(e),
    ensures
        s.stage matches Stage::ReportingCart(t) ==> s.next_stage(e) == cart_save_stage(t, s.options),
        s.stage matches Stage::WarningSave(_, open) ==> s.next_stage(e) == Stage::OpeningCartSave(open),
        forall|t: cart_db_save_type| match #[trigger] cart_save_stage(t, s.options) {
            Stage::WarningSave(w, open) => cart_save_plan(t, s.options) == Some(
                crate::cart_db::CartSavePlan { warning: Some(w), open },
            ),
            Stage::OpeningCartSave(open) => cart_save_plan(t, s.options) == Some(
                crate::cart_db::CartSavePlan { warning: None, open },
            ),
            Stage::LoadingPaks => cart_save_plan(t, s.options) is None,
            _ => false,
        },
        s.stage is LookingUpCart ==> match e {
            Event::CartFound(l) => {
                let t = actual_save_type(l.rom_id.unwrap()@, l.header@, l.listed);
                s.next_stage(e) == if l.cart_size >= 0x40 {
                    Stage::ReportingCart(t)
                } else {
                    cart_save_stage(t, s.options)
                }
            },
            _ => true,
        },
{
}

/// Each stage awaits its own action: the checks, the command line, clearing,
/// loading and looking up in their stages; the message a reporting stage was
/// entered with; the cartridge's save file as planned; erasing FlashRAM after
/// creating one; the device steps; closing the ROM a closing stage names;
/// tearing the allocator down before leaving; and the exit with the stage's
/// status.
pub proof fn law_each_stage_awaits_its_action(s: Startup)
    ensures
        s.stage == Stage::CheckingCartDb ==> s.awaited() == Action::CheckCartDb,
        s.stage == Stage::InitAllocator ==> s.awaited() == Action::InitAllocator,
        s.stage == Stage::CheckingExtensions ==> s.awaited() == Action::CheckExtensions,
        s.stage == Stage::ParsingArgs ==> s.awaited() == Action::ParseArgs,
        s.stage == Stage::ClearingFiles ==> s.awaited() == Action::ClearFiles,
        s.stage == Stage::LoadingRoms ==> s.awaited() == Action::LoadRoms,
        s.stage == Stage::LookingUpCart ==> s.awaited() == Action::LookupCart,
        s.stage is ReportingCart ==> s.awaited() == Action::ReportCart,
        s.stage matches Stage::ReportingFatal(m) ==> s.awaited() == Action::Print(m),
        s.stage matches Stage::WarningSave(w, _) ==> s.awaited() == Action::Print(Message::Save(w)),
        s.stage matches Stage::OpeningCartSave(open) ==> s.awaited() == Action::OpenSave(open),
        s.stage == Stage::FillingCartFlash ==> s.awaited() == Action::FillFlashram,
        s.stage == Stage::FillingFlash ==> s.awaited() == Action::FillFlashram,
        s.stage == Stage::LoadingPaks ==> s.awaited() == Action::LoadPaks,
        s.stage == Stage::Allocating ==> s.awaited() == Action::AllocateDevice,
        s.stage == Stage::ReportingAllocFailure ==> s.awaited() == Action::Print(Message::DeviceAllocFailed),
        s.stage == Stage::ReportingCreateFailure ==> s.awaited() == Action::Print(Message::DeviceCreateFailed),
        s.stage == Stage::Destroying ==> s.awaited() == Action::DestroyDevice,
        s.stage == Stage::Freeing ==> s.awaited() == Action::FreeDeviceMemory,
        s.stage matches Stage::Closing(k) ==> s.awaited() == Action::CloseRom(k),
        s.stage == Stage::Abandoning ==> s.awaited() == Action::CleanupAllocator,
        s.stage == Stage::Finishing ==> s.awaited() == Action::CleanupAllocator,
        s.stage matches Stage::Exited(c) ==> s.awaited() == Action::Exit(c),
{
}

/// After the paks, the save files the command line names are opened in turn:
/// EEPROM, then SRAM, then FlashRAM, skipping those it does not name, and a
/// newly created FlashRAM is erased; then the IS-Viewer is set up. The
/// cartridge's own FlashRAM is erased exactly when it was newly created.
pub proof fn law_command_line_saves_opened_in_turn(s: Startup, e: Event)
    requires
        s.accepts(e),
    ensures
        ({
            let o = s.options;
            let from_sram = if o.flashram_path is Some { Stage::OpeningFlash } else { Stage::InitIsViewer };
            let from_eeprom = if o.sram_path is Some { Stage::OpeningSram } else { from_sram };
            let from_paks = if o.eeprom_path is Some { Stage::OpeningEeprom } else { from_eeprom };
            &&& (s.stage == Stage::LoadingPaks && e == Event::Status(0)) ==> s.next_stage(e) == from_paks
            &&& s.stage == Stage::OpeningEeprom ==> match e {
                Event::SaveOpened { status, .. } => status == 0 ==> s.next_stage(e) == from_eeprom,
                _ => true,
            }
            &&& s.stage == Stage::OpeningSram ==> match e {
                Event::SaveOpened { status, .. } => status == 0 ==> s.next_stage(e) == from_sram,
                _ => true,
            }
            &&& s.stage == Stage::OpeningFlash ==> match e {
                Event::SaveOpened { status, created } => status == 0 ==> s.next_stage(e) == (if created {
                    Stage::FillingFlash
                } else {
                    Stage::InitIsViewer
                }),
                _ => true,
            }
            &&& s.stage == Stage::FillingFlash ==> s.next_stage(e) == Stage::InitIsViewer
            &&& match s.stage {
                Stage::OpeningCartSave(open) => match e {
                    Event::SaveOpened { created, .. } => s.next_stage(e) == (if open.report_created && created {
                        Stage::FillingCartFlash
                    } else {
                        Stage::LoadingPaks
                    }),
                    _ => true,
                },
                _ => true,
            }
            &&& s.stage == Stage::FillingCartFlash ==> s.next_stage(e) == Stage::LoadingPaks
        }),
{
}

/// Once the device is done with, the ROM images are closed in the order 64DD
/// IPL, 64DD disk, cartridge, PIF ROM, skipping those the options do not name;
/// after the PIF ROM the allocator is torn down. A device that ran is
/// destroyed before its memory is freed; one that could not be created only
/// has its memory freed.
pub proof fn law_shutdown_order(s: Startup, e: Event)
    requires
        s.accepts(e),
    ensures
        ({
            let o = s.options;
            let after_cart = Stage::Closing(RomKind::Pifrom);
            let after_ddrom = if o.cart_path is Some { Stage::Closing(RomKind::Cart) } else { after_cart };
            let after_ddipl = if o.ddrom_path is Some { Stage::Closing(RomKind::Ddrom) } else { after_ddrom };
            let first = if o.ddipl_path is Some { Stage::Closing(RomKind::Ddipl) } else { after_ddipl };
            &&& s.stage == Stage::Freeing ==> s.next_stage(e) == first
            &&& s.stage == Stage::ReportingAllocFailure ==> s.next_stage(e) == first
            &&& s.stage == Stage::Closing(RomKind::Ddipl) ==> s.next_stage(e) == after_ddipl
            &&& s.stage == Stage::Closing(RomKind::Ddrom) ==> s.next_stage(e) == after_ddrom
            &&& s.stage == Stage::Closing(RomKind::Cart) ==> s.next_stage(e) == after_cart
            &&& s.stage == Stage::Closing(RomKind::Pifrom) ==> s.next_stage(e) == Stage::Finishing
            &&& s.stage == Stage::Finishing ==> s.next_stage(e) == Stage::Exited(s.status)
            &&& s.stage == Stage::Running ==> s.next_stage(e) == Stage::Destroying
            &&& s.stage == Stage::Destroying ==> s.next_stage(e) == Stage::Freeing
            &&& s.stage == Stage::ReportingCreateFailure ==> s.next_stage(e) == Stage::Freeing
        }),
{
}

/// The lines a run prints.
pub proof fn law_message_texts(w: SaveWarning)
    ensures
        message_text(Message::CartDbMalformed)@ == "Internal cart detection database is not well-formed.\n"@,
        message_text(Message::AllocatorInitFailed)@ == "Failed to initialize the low-level allocators.\n"@,
        message_text(Message::DeviceAllocFailed)@ == "Failed to allocate enough memory for a device.\n"@,
        message_text(Message::DeviceCreateFailed)@ == "Failed to create a device.\n"@,
        message_text(Message::Save(w)) == crate::cart_db::warning_text(w),
{
}

} // verus!
