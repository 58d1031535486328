use agb_bevy::audio::{AgbSoundPlugin, SoundSetup};
use agb_bevy::dma::AgbDmaPlugin;
use agb_bevy::input::{agb_to_bevy_button, update_gamepad, Button, ButtonChange, ButtonController, GamepadButton};
use agb_bevy::logging::{DebugLevel, LogLevel, MgbaLogger};
use agb_bevy::registry::{Hardware, HardwareRegistry};
use agb_bevy::render::{
    render_objects, AgbRenderPlugin, Drawable, GraphicsMode, Priority, Sprite, SpriteHandles, SpriteTableIds, OAM_SLOTS,
};
use agb_bevy::runner::{run_frames, AgbRunnerPlugin, RunnerAction, RunnerEvent, RunnerState};
use agb_bevy::save::{AgbSavePlugin, MediaType, SaveManager};
use agb_bevy::time::{elapsed_nanos, AgbTimePlugin, Divider, InterruptCounter, TimerConfig, TICK_NANOS};
use agb_bevy::unpack::{AgbUnpackPlugin, UnpackGuard};

const ALL_HARDWARE: [Hardware; 6] =
    [Hardware::Display, Hardware::Sound, Hardware::Mixer, Hardware::Save, Hardware::Timers, Hardware::Dma];

fn unpacked_registry() -> HardwareRegistry {
    let mut guard = UnpackGuard::new();
    let mut registry = HardwareRegistry::new();
    assert!(AgbUnpackPlugin.build(&mut guard, &mut registry));
    registry
}

fn drawable(handle: agb_bevy::render::SpriteHandle, x: i32, y: i32) -> Drawable {
    Drawable { sprite: Sprite::new(handle), x, y }
}

#[test]
fn registered_handles_resolve_and_differ() {
    let mut table: SpriteHandles<u32> = SpriteHandles::new(1);
    let a = table.add(7);
    let b = table.add(7);
    assert_ne!(a, b);
    assert_eq!(a, a);
    assert_eq!(table.get(&a), Some(&7));
    assert_eq!(table.get(&b), Some(&7));
    let c = table.add(9);
    assert_eq!(table.get(&a), Some(&7));
    assert_eq!(table.get(&c), Some(&9));
}

#[test]
fn handle_from_larger_table_resolves_to_nothing() {
    let mut big: SpriteHandles<u8> = SpriteHandles::new(2);
    big.add(1);
    let h = big.add(2);
    let mut small: SpriteHandles<u8> = SpriteHandles::new(3);
    small.add(3);
    assert_eq!(small.get(&h), None);
}

#[test]
fn handles_of_separate_tables_differ() {
    let mut t1: SpriteHandles<u32> = SpriteHandles::new(100);
    let mut t2: SpriteHandles<u32> = SpriteHandles::new(200);
    let h1 = t1.add(5);
    let h2 = t2.add(5);
    assert_ne!(h1, h2);
    assert_eq!(t1.get(&h1), Some(&5));
    assert_eq!(t2.get(&h2), Some(&5));
    assert_eq!(t1.get(&h2), None);
    assert_eq!(t2.get(&h1), None);
}

#[test]
fn issued_tables_have_distinct_identities() {
    let mut ids = SpriteTableIds::new();
    let mut t1: SpriteHandles<u8> = ids.new_table().unwrap();
    let mut t2: SpriteHandles<u8> = ids.new_table().unwrap();
    let h1 = t1.add(1);
    let h2 = t2.add(2);
    assert_ne!(h1, h2);
    assert_eq!(t2.get(&h1), None);
    assert_eq!(t1.get(&h1), Some(&1));
    assert_eq!(ids.issue(), Some(2));
}

#[test]
fn sprite_defaults() {
    let mut table: SpriteHandles<u8> = SpriteHandles::new(4);
    let h = table.add(0);
    let s = Sprite::new(h);
    assert_eq!(s.handle, h);
    assert!(!s.horizontal_flipped);
    assert!(!s.vertical_flipped);
    assert!(s.visible);
    assert_eq!(s.priority, Priority::P0);
    assert_eq!(s.graphics_mode, GraphicsMode::Normal);
}

#[test]
fn compositing_copies_sprite_state() {
    let mut table: SpriteHandles<u8> = SpriteHandles::new(5);
    let h = table.add(0);
    let mut d = drawable(h, -3, 40);
    d.sprite.horizontal_flipped = true;
    d.sprite.priority = Priority::P2;
    d.sprite.graphics_mode = GraphicsMode::AlphaBlending;
    let frame = render_objects(&table, &vec![d], OAM_SLOTS);
    assert!(!frame.out_of_slots);
    assert_eq!(frame.objects.len(), 1);
    let o = frame.objects[0];
    assert_eq!((o.handle, o.x, o.y), (h, -3, 40));
    assert!(o.horizontal_flipped);
    assert!(!o.vertical_flipped);
    assert_eq!(o.priority, Priority::P2);
    assert_eq!(o.graphics_mode, GraphicsMode::AlphaBlending);
}

#[test]
fn compositing_skips_unresolved_and_hidden() {
    let mut other: SpriteHandles<u8> = SpriteHandles::new(6);
    let foreign = other.add(0);
    let stale = other.add(1);
    let mut table: SpriteHandles<u8> = SpriteHandles::new(7);
    let h = table.add(0);
    let mut hidden = drawable(h, 1, 1);
    hidden.sprite.visible = false;
    let ds = vec![drawable(stale, 0, 0), drawable(foreign, 2, 2), hidden, drawable(h, 5, 6)];
    let frame = render_objects(&table, &ds, 1);
    assert!(!frame.out_of_slots);
    assert_eq!(frame.objects.len(), 1);
    assert_eq!((frame.objects[0].x, frame.objects[0].y), (5, 6));
}

#[test]
fn compositing_truncates_at_slot_count() {
    let mut table: SpriteHandles<u8> = SpriteHandles::new(8);
    let h = table.add(0);
    let ds: Vec<Drawable> = (0..OAM_SLOTS as i32 + 5).map(|i| drawable(h, i, 0)).collect();
    let frame = render_objects(&table, &ds, OAM_SLOTS);
    assert!(frame.out_of_slots);
    assert_eq!(frame.objects.len(), OAM_SLOTS);
    for (i, o) in frame.objects.iter().enumerate() {
        assert_eq!(o.x, i as i32);
    }
}

#[test]
fn compositing_exactly_full_reports_no_shortage() {
    let mut table: SpriteHandles<u8> = SpriteHandles::new(9);
    let h = table.add(0);
    let ds = vec![drawable(h, 0, 0), drawable(h, 1, 0), drawable(h, 2, 0)];
    let frame = render_objects(&table, &ds, 3);
    assert!(!frame.out_of_slots);
    assert_eq!(frame.objects.len(), 3);
    let frame = render_objects(&table, &ds, 0);
    assert!(frame.out_of_slots);
    assert!(frame.objects.is_empty());
    let frame = render_objects(&table, &vec![], 0);
    assert!(!frame.out_of_slots);
}

#[test]
fn button_mapping_table() {
    assert_eq!(agb_to_bevy_button(Button::A), Some((Button::A, GamepadButton::East)));
    assert_eq!(agb_to_bevy_button(Button::B), Some((Button::B, GamepadButton::South)));
    assert_eq!(agb_to_bevy_button(Button::Up), Some((Button::Up, GamepadButton::DPadUp)));
    assert_eq!(agb_to_bevy_button(Button::L), Some((Button::L, GamepadButton::LeftTrigger)));
    assert_eq!(agb_to_bevy_button(Button::Select), None);
    assert_eq!(agb_to_bevy_button(Button::Start), None);
    assert_eq!(Button::R.bit(), 256);
    assert_eq!(Button::all().len(), 10);
}

#[test]
fn eight_mapped_buttons_released_give_eight_events() {
    let mapped: u16 = Button::all()
        .into_iter()
        .filter(|b| agb_to_bevy_button(*b).is_some())
        .fold(0, |m, b| m | b.bit());
    let mut controller = ButtonController::new(mapped);
    let events = update_gamepad(&mut controller, 0);
    assert_eq!(events.len(), 8);
    assert!(events.iter().all(|e| !e.pressed));
    assert_eq!(events[0], ButtonChange { button: GamepadButton::East, pressed: false });
    assert_eq!(events[7], ButtonChange { button: GamepadButton::LeftTrigger, pressed: false });
}

#[test]
fn unmapped_buttons_emit_nothing() {
    let mut controller = ButtonController::new(0);
    let events = update_gamepad(&mut controller, Button::Select.bit() | Button::Start.bit() | 0x8000);
    assert!(events.is_empty());
    let events = update_gamepad(&mut controller, 0);
    assert!(events.is_empty());
}

#[test]
fn press_then_hold_then_release() {
    let mut controller = ButtonController::new(0);
    let events = update_gamepad(&mut controller, Button::A.bit());
    assert_eq!(events, vec![ButtonChange { button: GamepadButton::East, pressed: true }]);
    assert!(controller.is_just_pressed(Button::A));
    let events = update_gamepad(&mut controller, Button::A.bit());
    assert!(events.is_empty());
    let events = update_gamepad(&mut controller, 0);
    assert_eq!(events, vec![ButtonChange { button: GamepadButton::East, pressed: false }]);
    assert!(controller.is_just_released(Button::A));
}

#[test]
fn unpack_twice_is_noop() {
    let mut guard = UnpackGuard::new();
    let mut registry = HardwareRegistry::new();
    assert!(AgbUnpackPlugin.build(&mut guard, &mut registry));
    let once = registry;
    assert!(!AgbUnpackPlugin.build(&mut guard, &mut registry));
    assert_eq!(registry, once);
    assert!(guard.unpacked);
    for h in ALL_HARDWARE {
        assert!(registry.contains(h));
    }
}

#[test]
fn handle_can_be_taken_once() {
    let mut registry = unpacked_registry();
    assert!(AgbDmaPlugin.finish(&mut registry));
    assert!(!AgbDmaPlugin.finish(&mut registry));
    assert!(!registry.contains(Hardware::Dma));
    assert!(registry.contains(Hardware::Display));
}

#[test]
fn save_32k_battery_initialised_for_that_type_only() {
    let mut registry = unpacked_registry();
    let plugin = AgbSavePlugin { save_type: Some(MediaType::Sram32K) };
    let manager = plugin.finish(&mut registry).unwrap();
    assert!(manager.is_initialized_for(MediaType::Sram32K));
    for other in [MediaType::Flash64K, MediaType::Flash128K, MediaType::Eeprom512B, MediaType::Eeprom8K] {
        assert!(!manager.is_initialized_for(other));
    }
    assert!(plugin.finish(&mut registry).is_none());
}

#[test]
fn save_without_type_is_left_uninitialised() {
    let mut registry = unpacked_registry();
    let manager = AgbSavePlugin { save_type: None }.finish(&mut registry).unwrap();
    assert_eq!(manager.media_type(), None);
    let mut manual = SaveManager::new();
    manual.init(MediaType::Eeprom8K);
    assert_eq!(manual.media_type(), Some(MediaType::Eeprom8K));
}

#[test]
fn sound_setup_needs_sound_and_mixer() {
    let mut registry = unpacked_registry();
    let plugin = AgbSoundPlugin { enable_dmg: true };
    assert_eq!(plugin.finish(&mut registry), Some(SoundSetup { enable_dmg: true }));
    assert_eq!(plugin.finish(&mut registry), None);

    let mut registry = unpacked_registry();
    registry.take(Hardware::Mixer);
    assert_eq!(AgbSoundPlugin::default().finish(&mut registry), None);
    assert!(!registry.contains(Hardware::Sound));
    assert!(!AgbSoundPlugin::default().enable_dmg);
}

#[test]
fn timer_setup_once() {
    let mut registry = unpacked_registry();
    let config = AgbTimePlugin.finish(&mut registry);
    assert_eq!(
        config,
        Some(TimerConfig { enabled: true, divider: Divider::Divider1, overflow_amount: u16::MAX, interrupt: true })
    );
    assert_eq!(AgbTimePlugin.finish(&mut registry), None);
}

#[test]
fn render_setup_gives_empty_table() {
    let mut registry = unpacked_registry();
    let table: SpriteHandles<u8> = AgbRenderPlugin.finish(&mut registry, 40).unwrap();
    let mut other: SpriteHandles<u8> = SpriteHandles::new(10);
    let h = other.add(1);
    assert_eq!(table.get(&h), None);
    assert!(AgbRenderPlugin.finish::<u8>(&mut registry, 41).is_none());
}

#[test]
fn elapsed_time_from_ticks() {
    assert_eq!(TICK_NANOS, 1_000_000_000 >> 8);
    assert_eq!(elapsed_nanos(0), 0);
    assert_eq!(elapsed_nanos(256), 1_000_000_000);
    assert_eq!(elapsed_nanos(u32::MAX), u32::MAX as u64 * 3_906_250);
    let mut counter = InterruptCounter::new();
    counter.tick();
    counter.tick();
    assert_eq!(counter.elapsed_nanos(), 7_812_500);
    let mut top = InterruptCounter { count: u32::MAX };
    top.tick();
    assert_eq!(top.count, 0);
}

#[test]
fn logger_levels() {
    let logger = MgbaLogger;
    assert!(logger.enabled(LogLevel::Info));
    assert!(!logger.enabled(LogLevel::Debug));
    assert_eq!(logger.log(LogLevel::Error), Some(DebugLevel::Error));
    assert_eq!(logger.log(LogLevel::Warn), Some(DebugLevel::Warning));
    assert_eq!(logger.log(LogLevel::Info), Some(DebugLevel::Info));
    assert_eq!(logger.log(LogLevel::Debug), None);
    assert_eq!(logger.log(LogLevel::Trace), None);
}

#[test]
fn driver_three_vblanks_no_exit() {
    let report = run_frames(&vec![], 3);
    assert_eq!(report.updates, 3);
    assert_eq!(report.exit, None);
    let report = run_frames(&vec![None, None, None, None], 3);
    assert_eq!(report.updates, 3);
    assert_eq!(report.exit, None);
}

#[test]
fn driver_returns_on_exit_request() {
    let report = run_frames(&vec![None, Some(2), None], 5);
    assert_eq!(report.updates, 2);
    assert_eq!(report.exit, Some(2));
    let report = run_frames(&vec![None, None, Some(1)], 2);
    assert_eq!(report.updates, 2);
    assert_eq!(report.exit, None);
}

#[test]
fn driver_steps() {
    let (s, a) = AgbRunnerPlugin::step(RunnerState::Initializing, RunnerEvent::PluginsPending);
    assert_eq!((s, a), (RunnerState::Initializing, RunnerAction::WaitForPlugins));
    let (s, a) = AgbRunnerPlugin::step(s, RunnerEvent::PluginsReady);
    assert_eq!((s, a), (RunnerState::Updating, RunnerAction::StartAndUpdate));
    let (s, a) = AgbRunnerPlugin::step(s, RunnerEvent::VBlank);
    assert_eq!((s, a), (RunnerState::Updating, RunnerAction::Ignore));
    let (s, a) = AgbRunnerPlugin::step(s, RunnerEvent::Updated { exit: None });
    assert_eq!((s, a), (RunnerState::WaitingForVBlank, RunnerAction::WaitForVBlank));
    let (s, a) = AgbRunnerPlugin::step(s, RunnerEvent::VBlank);
    assert_eq!((s, a), (RunnerState::Updating, RunnerAction::Update));
    let (s, a) = AgbRunnerPlugin::step(s, RunnerEvent::Updated { exit: Some(0) });
    assert_eq!((s, a), (RunnerState::Exited { code: 0 }, RunnerAction::Return { code: 0 }));
    let (s, a) = AgbRunnerPlugin::step(s, RunnerEvent::VBlank);
    assert_eq!((s, a), (RunnerState::Exited { code: 0 }, RunnerAction::Return { code: 0 }));
}
