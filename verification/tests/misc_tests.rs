use partymod::args::ArgCollection;
use partymod::bps::BPSError;
use partymod::crc::crc32;
use partymod::file::{
    parse_open_mode, seek_position, FileContext, FilePatchOutcome, OpenMode, PatchedFile, SeekPos,
};
use partymod::gameplay::{clamp_trick_count, GameplayContext, MAX_PENDING_TRICKS};
use partymod::gamepad::GamepadManager;
use partymod::gfx::graphics_patch_paths;
use partymod::ilmode::{is_comp_level, ILModeContext, LevelProgress};
use partymod::logger::{LogLevel, PrintlnLogger};
use partymod::misc::{init, our_random};
use partymod::net::{online_urls, NetContext, SERVER_VERSION};
use partymod::parkeditor::ParkEditorControlsState;
use partymod::patcher::{
    expected_output_crc, run_patch, select_patch, ChecksumSet, PatchConfig, PatchOutcome,
    PatcherConfig, PatcherResult,
};
use partymod::prng::Pcg32;
use partymod::profile::{profile_dir, sanitize_profile_name, ProfileContext};
use partymod::scancode::{SCANCODE_LSHIFT, SCANCODE_RETURN, SCANCODE_SPACE};
use partymod::sfx::bgm_status;
use partymod::throttle::{wait_should_sleep, FramerateThrottle, ThrottleStep, NANOS_PER_MILLI};
use partymod::version::version_string;
use partymod::window::{needs_desktop_resolution, window_title, WindowContext, WindowStyle};

fn strings(v: &[&str]) -> Vec<String> {
    v.iter().map(|s| s.to_string()).collect()
}

#[test]
fn args_read_options_and_values() {
    let args = ArgCollection::new(strings(&["thps3.exe", "--profile", "Bob", "-ilmode", "--debug", "x", "stray"]));
    assert_eq!(args.get_arg_value("profile"), Some("Bob".to_string()));
    assert!(args.has_arg("ilmode"));
    assert_eq!(args.get_arg_value("ilmode"), None);
    assert_eq!(args.get_arg_value("debug"), Some("x".to_string()));
    assert!(!args.has_arg("stray"));
    assert!(!args.has_arg("thps3.exe"));
    let last = ArgCollection::new(strings(&["-a", "1", "-a", "2", "-b"]));
    assert_eq!(last.get_arg_value("a"), Some("2".to_string()));
    assert!(last.has_arg("b"));
    assert_eq!(last.get_arg_value("b"), None);
}

#[test]
fn pcg_values() {
    let mut p = Pcg32::new(0);
    assert_eq!(p.get(), 2393464436);
    assert_eq!(p.get(), 4002122197);
    assert_eq!(p.get(), 658530987);
    let mut q = Pcg32::new(42);
    assert_eq!(q.get(), 23047077);
    assert_eq!(q.get(), 346099413);
}

#[test]
fn music_random_stays_below_limit() {
    let mut p = init(1234567890123);
    let picks: Vec<u32> = (0..5).map(|_| our_random(&mut p, 10)).collect();
    assert_eq!(picks, vec![9, 6, 1, 4, 2]);
}

#[test]
fn throttle_schedules_frames() {
    let mut t = FramerateThrottle::new(16 * NANOS_PER_MILLI, 1000);
    assert_eq!(t.throttle(1000), ThrottleStep::Proceed);
    assert_eq!(t.throttle(1000 + 5 * NANOS_PER_MILLI), ThrottleStep::WaitUntil(1000 + 16 * NANOS_PER_MILLI));
    assert_eq!(t.throttle(1000 + 100 * NANOS_PER_MILLI), ThrottleStep::Proceed);
    assert!(wait_should_sleep(10 * NANOS_PER_MILLI, 0));
    assert!(!wait_should_sleep(3 * NANOS_PER_MILLI, 0));
    assert!(!wait_should_sleep(0, 5));
}

#[test]
fn ilmode_retry_and_restore() {
    assert!(is_comp_level(3));
    assert!(!is_comp_level(2));
    let mut c = ILModeContext::new(true);
    assert_eq!(c.retry(3, 5, 5), None);
    let r = c.retry(2, 0b0101, 0x0018_0001);
    assert_eq!(r, Some(LevelProgress { goals: 0, someflags: 0, pickups: 0x0000_0001 }));
    // later goals add up
    let r = c.retry(2, 0b0010, 0x0020_0000);
    assert_eq!(r, Some(LevelProgress { goals: 0, someflags: 0, pickups: 0 }));
    assert_eq!(c.restore(0b1000, 0), Some((0b1111, 0x0038_0001)));
    assert_eq!(ILModeContext::new(true).restore(1, 2), None);
}

#[test]
fn logger_levels() {
    assert_eq!(LogLevel::Error.priority(), 0);
    assert_eq!(LogLevel::Trace.priority(), 4);
    assert_eq!(LogLevel::from_priority(2), LogLevel::Info);
    assert_eq!(LogLevel::from_priority(9), LogLevel::Trace);
    assert_eq!(LogLevel::from_config_level(1), LogLevel::Warn);
    assert_eq!(LogLevel::from_config_level(-1), LogLevel::Trace);
    assert_eq!(LogLevel::Info.label(), "    INFO");
    let l = PrintlnLogger::new(LogLevel::Info);
    assert!(l.should_log(LogLevel::Error));
    assert!(l.should_log(LogLevel::Info));
    assert!(!l.should_log(LogLevel::Debug));
    let w = PrintlnLogger::new(LogLevel::Warn);
    assert_eq!(w.log_line(LogLevel::Error, "boom"), Some("   ERROR boom".to_string()));
    assert_eq!(w.log_line(LogLevel::Warn, "careful"), Some("    WARN careful".to_string()));
    assert_eq!(w.log_line(LogLevel::Info, "quiet"), None);
}

#[test]
fn window_resolution() {
    assert!(needs_desktop_resolution(0, 480));
    assert!(!needs_desktop_resolution(800, 600));
    let w = WindowContext::init(true, false, 800, 600, None);
    assert_eq!((w.res_x, w.res_y), (800, 600));
    let w = WindowContext::init(false, true, 0, 0, Some((1920, 1080)));
    assert_eq!((w.res_x, w.res_y, w.is_windowed, w.is_borderless), (1920, 1080, false, true));
    let w = WindowContext::init(true, false, 320, 200, None);
    assert_eq!((w.res_x, w.res_y), (640, 480));
    let w = WindowContext::init(true, false, -1, 1000, None);
    assert_eq!((w.res_x, w.res_y), (u32::MAX, 1000));
    assert_eq!(WindowContext::init(true, true, 800, 600, None).window_style(), WindowStyle { fullscreen: false, borderless: true });
    assert_eq!(WindowContext::init(false, true, 800, 600, None).window_style(), WindowStyle { fullscreen: true, borderless: false });
    assert!(!WindowContext::init(false, true, 800, 600, None).is_window());
    assert_eq!(window_title("0.1.0"), "THPS3 - PARTYMOD 0.1.0");
}

#[test]
fn version_line() {
    assert_eq!(version_string("0.1.0", false, false, None), "0.1.0");
    assert_eq!(
        version_string("0.1.0", true, true, Some("bob")),
        "0.1.0 (1.01 compatibility mode) - IL MODE ENABLED - profile: bob"
    );
    assert_eq!(version_string("1.2", false, true, None), "1.2 - IL MODE ENABLED");
}

#[test]
fn profile_names_and_paths() {
    assert_eq!(sanitize_profile_name("My Profile_1-X"), "myprofile1-x");
    assert_eq!(sanitize_profile_name("../../etc"), "etc");
    assert_eq!(sanitize_profile_name("ÄBc"), "bc");
    let p = ProfileContext::init(Some("Bob"));
    assert_eq!(p.get_profile_name(), Some("bob".to_string()));
    assert_eq!(p.save_path_long, "%ssettings\\OptionsAndPros\\bob\\main.opt");
    assert_eq!(p.save_path_short, "/OptionsAndPros/bob/main.opt");
    assert_eq!(profile_dir("bob"), "./data/settings/OptionsAndPros/bob");
    let none = ProfileContext::init(None);
    assert_eq!(none.get_profile_name(), None);
    assert_eq!(none.save_path_long, "");
}

#[test]
fn online_service_urls() {
    assert_eq!(online_urls("openspy.net"), Some(("peerchat.openspy.net".to_string(), "master.openspy.net".to_string())));
    assert_eq!(online_urls("bad\0domain"), None);
    let n = NetContext::init("example.org");
    assert_eq!(n.get_server_version(), SERVER_VERSION);
    assert_eq!(n.peerchat_url, Some("peerchat.example.org".to_string()));
    assert_eq!(NetContext::init("\0").master_server_url, None);
}

#[test]
fn music_stream_status() {
    assert_eq!(bgm_status(Some(4)), (2, false));
    assert_eq!(bgm_status(Some(8)), (2, false));
    assert_eq!(bgm_status(Some(2)), (1, true));
    assert_eq!(bgm_status(None), (1, false));
}

#[test]
fn trick_count_clamp() {
    assert_eq!(clamp_trick_count(10), 10);
    assert_eq!(clamp_trick_count(MAX_PENDING_TRICKS), 512);
    assert_eq!(clamp_trick_count(600), 512);
    assert!(GameplayContext::init(false).raises_limits());
    assert!(GameplayContext::init(true).get_compatibility_mode());
}

#[test]
fn patched_file_reads() {
    let mut f = PatchedFile::new(b"ab\0cdefg".to_vec());
    let mut buf = [9u8; 4];
    f.gets(&mut buf);
    assert_eq!(buf, [b'a', b'b', 0, 9]);
    assert_eq!(f.tell(), 3);
    let mut buf = [0u8; 10];
    assert_eq!(f.read(&mut buf), 5);
    assert_eq!(&buf[..5], b"cdefg");
    assert!(f.eof());
    assert!(!f.seek(SeekPos::Start(1)));
    assert_eq!(f.tell(), 1);
    assert!(!f.seek(SeekPos::End(2)));
    assert_eq!(f.tell(), 6);
    assert!(!f.seek(SeekPos::Current(-3)));
    assert_eq!(f.tell(), 3);
    assert!(!f.eof());
}

#[test]
fn seek_origins_and_modes() {
    assert_eq!(seek_position(5, 0), SeekPos::Start(5));
    assert_eq!(seek_position(-5, 1), SeekPos::Current(-5));
    assert_eq!(seek_position(5, 2), SeekPos::End(5));
    assert_eq!(seek_position(5, 7), SeekPos::Current(5));
    assert_eq!(parse_open_mode(b"rb"), OpenMode { read: true, write: false, create: false, append: false });
    assert_eq!(parse_open_mode(b"w+"), OpenMode { read: true, write: true, create: true, append: false });
    assert_eq!(parse_open_mode(b"a"), OpenMode { read: false, write: true, create: false, append: true });
}

fn identity_patch(source: &[u8]) -> Vec<u8> {
    let mut p = b"BPS1".to_vec();
    let n = source.len() as u64;
    assert!(n > 0 && n < 128);
    p.push(0x80 | n as u8);
    p.push(0x80 | n as u8);
    p.push(0x80);
    p.push(0x80 | (((n - 1) << 2) as u8));
    p.extend_from_slice(&crc32(source).to_le_bytes());
    p.extend_from_slice(&crc32(source).to_le_bytes());
    let c = crc32(&p);
    p.extend_from_slice(&c.to_le_bytes());
    p
}

#[test]
fn file_patches_match_case_insensitively() {
    let mut ctx = FileContext::new();
    let patch = identity_patch(b"data");
    ctx.register_patch(".\\DATA\\Thing.bin", &patch);
    assert!(ctx.patch_for(".\\data\\thing.BIN").is_some());
    assert!(ctx.patch_for(".\\data\\other.bin").is_none());
    assert_eq!(ctx.patch_contents(".\\data\\thing.bin", b"data"), FilePatchOutcome::Applied(Ok(b"data".to_vec())));
    assert_eq!(
        ctx.patch_contents(".\\data\\thing.bin", b"dat"),
        FilePatchOutcome::Applied(Err(BPSError::InputSize(4, 3)))
    );
    assert_eq!(ctx.patch_contents("nothing", b"x"), FilePatchOutcome::Unpatched);
    ctx.register_patch("short", b"BPS");
    assert_eq!(ctx.patch_contents("SHORT", b"x"), FilePatchOutcome::Malformed);
}

#[test]
fn graphics_and_glyph_patches_register() {
    let mut ctx = FileContext::new();
    let patches: Vec<Vec<u8>> = (0..18).map(|i| vec![i as u8]).collect();
    partymod::gfx::init(&mut ctx, &patches);
    let paths = graphics_patch_paths();
    assert_eq!(paths[0], ".\\data\\models\\bits\\bits.tdx");
    assert_eq!(paths[17], ".\\data\\levels\\ware\\ware.bsp");
    assert_eq!(ctx.patch_for(".\\data\\levels\\ROS\\ros.bsp"), Some(&vec![7u8]));
    partymod::glyph::init(&mut ctx, 2, b"p", b"j", b"x");
    assert_eq!(ctx.patch_for(".\\data\\fonts\\small.fnt"), Some(&b"j".to_vec()));
    let mut other = FileContext::new();
    partymod::glyph::init(&mut other, 0, b"p", b"j", b"x");
    assert_eq!(other.patch_for(".\\data\\fonts\\small.fnt"), None);
}

#[test]
fn patcher_selects_and_applies() {
    let input = b"game".to_vec();
    let patch: &'static [u8] = Box::leak(identity_patch(b"game").into_boxed_slice());
    let other: &'static [u8] = Box::leak(identity_patch(b"other").into_boxed_slice());
    let input_crc = crc32(&input);
    let config = PatcherConfig {
        input_filename: "in.exe",
        output_filename: "out.exe",
        failure_hint: "",
        patches: vec![
            PatchConfig { input_size: 5, patch_data: other, checksums: vec![] },
            PatchConfig {
                input_size: 4,
                patch_data: patch,
                checksums: vec![ChecksumSet { input: 1, output: 2 }, ChecksumSet { input: input_crc, output: 77 }],
            },
        ],
    };
    assert_eq!(select_patch(&config, 4), Some(1));
    assert_eq!(select_patch(&config, 6), None);
    assert_eq!(expected_output_crc(&config.patches[1], input_crc), Some(77));
    assert_eq!(expected_output_crc(&config.patches[1], 3), None);
    match run_patch(&config, &input).unwrap() {
        PatchOutcome::Patched { input_crc: i, expected_output_crc, output_crc, output } => {
            assert_eq!(i, input_crc);
            assert_eq!(expected_output_crc, Some(77));
            assert_eq!(output_crc, crc32(b"game"));
            assert_eq!(output, b"game".to_vec());
        }
        _ => panic!("expected a patched output"),
    }
    match run_patch(&config, b"too long!").unwrap() {
        PatchOutcome::UnexpectedSize(n) => assert_eq!(n, 9),
        _ => panic!("expected an unexpected size"),
    }
    // a patch that runs past its own end is refused instead of panicking
    let broken: &'static [u8] = b"BPS1\x84\x84\x80\x00\xff\xff\xff\xff\xff\xff\xff\xff\xff\xff\xff\xff";
    let config2 = PatcherConfig {
        input_filename: "in.exe",
        output_filename: "out.exe",
        failure_hint: "",
        patches: vec![PatchConfig { input_size: 4, patch_data: broken, checksums: vec![] }],
    };
    assert!(run_patch(&config2, &input).is_none());
    assert_eq!(PatcherResult::Success.exit_code(), 0);
    assert_eq!(PatcherResult::Failure.exit_code(), 1);
}

#[test]
fn park_editor_buttons() {
    let gm = GamepadManager::new(1);
    let mut keys = vec![false; 512];
    keys[SCANCODE_RETURN as usize] = true;
    keys[SCANCODE_SPACE as usize] = true;
    let mask = ParkEditorControlsState::button_mask_for(&gm, &Vec::new(), &keys);
    assert_eq!(mask, (1 << 5) | (1 << 2));
    keys[SCANCODE_LSHIFT as usize] = true;
    let mask2 = ParkEditorControlsState::button_mask_for(&gm, &Vec::new(), &keys);
    assert_eq!(mask2, (1 << 5) | (1 << 1));
    let mut s = ParkEditorControlsState::new();
    s.update(mask);
    assert_eq!(s.get_button_state(), mask);
    s.update(mask);
    assert_eq!(s.get_button_state(), 0);
    s.debounce();
    s.update(1 << 5);
    assert_eq!(s.get_button_state(), 0);
    s.update(0);
    s.update(1 << 5);
    assert_eq!(s.get_button_state(), 1 << 5);
    // the buttons outside the fresh-press mask read as held
    s.update((1 << 5) | (1 << 13));
    assert_eq!(s.get_button_state(), 1 << 13);
}

#[test]
fn profile_chars_kept_in_order() {
    assert_eq!(partymod::profile::keep_profile_chars("my pro_file-2!"), "myprofile-2");
    assert_eq!(partymod::profile::keep_profile_chars(""), "");
    assert_eq!(partymod::profile::sanitize_profile_name("Tony Hawk-1"), "tonyhawk-1");
}
