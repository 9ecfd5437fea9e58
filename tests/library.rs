use insight_bot::analyzer::{
    file_poll_error, generation_failure, text_contains, is_rate_limited, next_file_poll, report_from_reply,
    request_preamble, speaker_label_text, AnalyzerError, FilePollStep, FileState, GenerateReply,
    NO_RESULT_TEXT,
};
use insight_bot::config::{Config, ConfigError, EnvValues};
use insight_bot::mode::AnalysisMode;
use insight_bot::pipeline::{
    classify_outcome, AnalysisResult, AnalysisRun, PipelineAction, PipelineEvent, PipelineStage,
    ERROR_NOTICE_PREFIX, RATE_LIMIT_NOTICE,
};
use insight_bot::processor::{AudioProcessor, ProcessorError};
use insight_bot::prompts;
use insight_bot::recorder::{encode_frames, RecorderError, UserRecorder};
use insight_bot::registry::{RegistryError, SessionRegistry};
use insight_bot::report::{chunk_report, report_messages, rolling_context, CONTEXT_LIMIT};
use insight_bot::scheduler::{scheduler_step, SchedulerAction, SchedulerEvent, SchedulerState};
use insight_bot::session::GuildSession;
use insight_bot::settings::{
    check_settings_command, rejection_text, GuildSettings, SettingsArgument, SettingsCommand,
    SettingsRejection,
};
use insight_bot::text::{decimal_string, parse_u64};

fn recorder() -> UserRecorder {
    UserRecorder::new("temp_audio".to_string(), 1700000000)
}

#[test]
fn test_prompt_selection() {
    assert!(prompts::get_prompt(&AnalysisMode::Debate).contains("議論アナリスト"));
    assert!(prompts::get_prompt(&AnalysisMode::Summary).contains("会議の書記"));
}

#[test]
fn test_mime_types() {
    assert_eq!(AudioProcessor::get_mime_type("test.ogg"), "audio/ogg");
    assert_eq!(AudioProcessor::get_mime_type("test.opus"), "audio/ogg");
    assert_eq!(AudioProcessor::get_mime_type("test.mp3"), "audio/mp3");
}

#[test]
fn test_recorder_basic() {
    let mut recorder = recorder();
    let user_id: u64 = 12345;
    recorder.add_opus_packet(user_id, &[0x00, 0x01, 0x02, 0x03]);
    recorder.add_opus_packet(user_id, &[0x04, 0x05, 0x06, 0x07]);

    assert!(recorder.has_data());
    assert_eq!(recorder.user_count(), 1);

    let files = recorder.flush_audio().unwrap();
    assert_eq!(files.len(), 1);
    assert!(files.contains_key(&user_id));
}

#[test]
fn test_database_operations() {
    let mut settings = GuildSettings::for_guild(12345);
    assert_eq!(settings.guild_id, 12345);
    assert_eq!(settings.analysis_mode, AnalysisMode::Debate);
    assert_eq!(settings.recording_interval, 300);

    settings.apply_update("analysis_mode", AnalysisMode::Summary.as_str());
    assert_eq!(settings.analysis_mode, AnalysisMode::Summary);
}

#[test]
fn settings_updates_interval_and_key_and_ignores_bad_values() {
    let mut settings = GuildSettings::default();
    assert_eq!(settings.guild_id, 0);
    settings.apply_update("recording_interval", "600");
    assert_eq!(settings.recording_interval, 600);
    settings.apply_update("recording_interval", "ten");
    assert_eq!(settings.recording_interval, 600);
    settings.apply_update("analysis_mode", "loud");
    assert_eq!(settings.analysis_mode, AnalysisMode::Debate);
    settings.apply_update("api_key", "SECRET-REDACTED");
    assert_eq!(settings.api_key.as_deref(), Some("SECRET-REDACTED"));
    settings.apply_update("colour", "blue");
    assert_eq!(settings.recording_interval, 600);
}

#[test]
fn stored_settings_read_unknown_mode_as_default() {
    let s = GuildSettings::from_stored(7, None, "SUMMARY", 120);
    assert_eq!(s.analysis_mode, AnalysisMode::Summary);
    let s = GuildSettings::from_stored(7, None, "chatter", 120);
    assert_eq!(s.analysis_mode, AnalysisMode::Debate);
    assert_eq!(s.recording_interval, 120);
}

#[test]
fn mode_names_read_case_insensitively() {
    assert_eq!(AnalysisMode::from_str("DEBATE"), Some(AnalysisMode::Debate));
    assert_eq!(AnalysisMode::from_str("Summary"), Some(AnalysisMode::Summary));
    assert_eq!(AnalysisMode::from_str("other"), None);
    assert_eq!(AnalysisMode::Summary.as_str(), "summary");
    assert_eq!(AnalysisMode::default(), AnalysisMode::Debate);
}

#[test]
fn settings_commands_are_checked() {
    assert_eq!(
        check_settings_command(Some("set_mode"), SettingsArgument::Text("Summary".to_string())),
        Ok(SettingsCommand::SetMode(AnalysisMode::Summary))
    );
    assert_eq!(
        check_settings_command(Some("set_mode"), SettingsArgument::Text("chaos".to_string())),
        Err(SettingsRejection::UnknownMode)
    );
    assert_eq!(
        check_settings_command(Some("set_interval"), SettingsArgument::Integer(59)),
        Err(SettingsRejection::IntervalTooShort)
    );
    assert_eq!(
        check_settings_command(Some("set_interval"), SettingsArgument::Integer(-5)),
        Err(SettingsRejection::IntervalTooShort)
    );
    assert_eq!(
        check_settings_command(Some("set_interval"), SettingsArgument::Integer(60)),
        Ok(SettingsCommand::SetInterval(60))
    );
    assert_eq!(
        check_settings_command(Some("set_interval"), SettingsArgument::Missing),
        Err(SettingsRejection::MissingValue)
    );
    assert_eq!(
        check_settings_command(Some("reset"), SettingsArgument::Missing),
        Err(SettingsRejection::UnknownSubcommand)
    );
    assert_eq!(
        check_settings_command(None, SettingsArgument::Missing),
        Err(SettingsRejection::MissingSubcommand)
    );
    assert_eq!(rejection_text(SettingsRejection::IntervalTooShort), "❌ 間隔は最短60秒です。");
}

#[test]
fn interleaved_speakers_flush_in_arrival_order() {
    let mut r = recorder();
    r.add_opus_packet(1, &[1]);
    r.add_opus_packet(2, &[20]);
    r.add_opus_packet(1, &[2]);
    r.add_opus_packet(3, &[]);
    r.add_opus_packet(2, &[21, 22]);
    r.add_opus_packet(1, &[3]);
    let out = r.flush_audio().unwrap();
    assert_eq!(out.len(), 2);
    assert_eq!(out[&1], vec![vec![1u8], vec![2], vec![3]]);
    assert_eq!(out[&2], vec![vec![20u8], vec![21, 22]]);
    assert!(!out.contains_key(&3));
    assert!(!r.has_data());
    assert_eq!(r.user_count(), 0);
}

#[test]
fn fragments_after_a_flush_go_to_the_next_one() {
    let mut r = recorder();
    r.add_opus_packet(5, &[1]);
    let first = r.flush_audio().unwrap();
    r.add_opus_packet(5, &[2]);
    r.add_opus_packet(6, &[3]);
    let second = r.flush_audio().unwrap();
    assert_eq!(first[&5], vec![vec![1u8]]);
    assert_eq!(second[&5], vec![vec![2u8]]);
    assert_eq!(second[&6], vec![vec![3u8]]);
    assert!(matches!(r.flush_audio(), Err(RecorderError::NoData)));
}

#[test]
fn alice_and_bob_flush() {
    let alice: u64 = 100;
    let bob: u64 = 200;
    let mut r = recorder();
    r.add_opus_packet(alice, b"a1");
    r.add_opus_packet(alice, b"a2");
    r.add_opus_packet(bob, b"b1");
    r.add_opus_packet(alice, b"a3");
    let out = r.flush_audio().unwrap();
    assert_eq!(out.len(), 2);
    assert_eq!(out[&alice], vec![b"a1".to_vec(), b"a2".to_vec(), b"a3".to_vec()]);
    assert_eq!(out[&bob], vec![b"b1".to_vec()]);
}

#[test]
fn empty_fragments_change_nothing_and_clear_drops_all() {
    let mut r = recorder();
    r.add_audio_data(9, &[]);
    assert!(!r.has_data());
    assert_eq!(r.user_count(), 0);
    r.add_audio_data(9, &[1, 2]);
    r.add_audio_data(10, &[3]);
    assert!(r.has_data());
    assert_eq!(r.user_count(), 2);
    r.clear();
    assert!(!r.has_data());
    assert!(matches!(r.flush_audio(), Err(RecorderError::NoData)));
    assert_eq!(RecorderError::NoData.message(), "No audio data available");
    assert_eq!(RecorderError::Io("disk full".to_string()).message(), "IO error: disk full");
}

#[test]
fn frames_are_stored_length_prefixed() {
    let frames = vec![vec![0xAAu8, 0xBB], vec![], vec![7u8; 300]];
    let bytes = encode_frames(&frames);
    let mut expected = vec![2u8, 0, 0xAA, 0xBB, 0, 0, 44, 1];
    expected.extend(vec![7u8; 300]);
    assert_eq!(bytes, expected);
}

#[test]
fn file_names_combine_session_speaker_and_flush_time() {
    let r = recorder();
    assert_eq!(r.file_name(42, 1700000300), "1700000000_42_1700000300.opus");
    assert_eq!(r.session_timestamp(), 1700000000);
    assert_eq!(r.temp_dir(), "temp_audio");
}

#[test]
fn decimal_text_round_trips() {
    assert_eq!(decimal_string(0), "0");
    assert_eq!(decimal_string(1234567890), "1234567890");
    assert_eq!(decimal_string(u64::MAX), "18446744073709551615");
    assert_eq!(parse_u64("18446744073709551615"), Some(u64::MAX));
    assert_eq!(parse_u64("18446744073709551616"), None);
    assert_eq!(parse_u64("+300"), Some(300));
    assert_eq!(parse_u64("-3"), None);
    assert_eq!(parse_u64(""), None);
    assert_eq!(parse_u64("+"), None);
    assert_eq!(parse_u64("12a"), None);
}

#[test]
fn create_if_absent_admits_one_session_per_tenant() {
    let mut reg: SessionRegistry<&str> = SessionRegistry::new();
    let attempts = ["first", "second", "third", "fourth"];
    let mut ok = 0;
    let mut rejected = 0;
    for a in attempts {
        match reg.create_if_absent(77, a) {
            Ok(()) => ok += 1,
            Err(RegistryError::AlreadyExists) => rejected += 1,
        }
    }
    assert_eq!(ok, 1);
    assert_eq!(rejected, 3);
    assert_eq!(reg.get(77), Some(&"first"));
    assert!(reg.create_if_absent(78, "other").is_ok());
    assert_eq!(reg.len(), 2);
    assert_eq!(reg.remove(77), Some("first"));
    assert!(!reg.contains(77));
    assert_eq!(reg.remove(77), None);
    assert_eq!(reg.get(77), None);
}

#[test]
fn rolling_context_stays_bounded() {
    let mut session = GuildSession::new(1, 2);
    for round in 0..3 {
        let report: String = std::iter::repeat("議論").take(1500 + round).collect();
        session.record_report(&report);
        assert_eq!(session.context().chars().count(), CONTEXT_LIMIT);
        let tail: String = report.chars().skip(report.chars().count() - CONTEXT_LIMIT).collect();
        assert_eq!(session.context(), &tail);
    }
    session.record_report("short");
    assert_eq!(session.context(), "short");
    assert_eq!(rolling_context(""), "");
}

#[test]
fn session_names_and_lifecycle() {
    let mut session = GuildSession::new(10, 20);
    assert_eq!(session.guild_id(), 10);
    assert_eq!(session.text_channel_id(), 20);
    assert!(session.is_active());
    session.register_user(5, "Alice".to_string());
    assert_eq!(session.get_user_name(5), "Alice");
    assert_eq!(session.get_user_name(42), "User_42");
    assert_eq!(session.speaker_labels(&vec![42, 5]), vec!["User_42".to_string(), "Alice".to_string()]);
    session.stop();
    assert!(!session.is_active());
    assert_eq!(session.get_user_name(5), "Alice");
}

#[test]
fn chunking_covers_the_body() {
    let body: String = std::iter::repeat("あいうえお").take(800).collect();
    let chunks = chunk_report(&body, 1900);
    assert_eq!(chunks.len(), 3);
    assert_eq!(chunks[0].chars().count(), 1900);
    assert_eq!(chunks[1].chars().count(), 1900);
    assert_eq!(chunks[2].chars().count(), 200);
    assert_eq!(chunks.concat(), body);
    let exact: String = "x".repeat(3800);
    assert_eq!(chunk_report(&exact, 1900).len(), 2);
    assert!(chunk_report("", 1900).is_empty());
    assert_eq!(chunk_report("abcde", 2), vec!["ab", "cd", "e"]);
}

#[test]
fn short_reports_share_the_header_message() {
    let msgs = report_messages("H\n", "body");
    assert_eq!(msgs, vec!["H\nbody".to_string()]);
    let long = "y".repeat(1999);
    let msgs = report_messages("H\n", &long);
    assert_eq!(msgs.len(), 3);
    assert_eq!(msgs[0], "H\n");
    assert_eq!(msgs[1].len(), 1900);
    assert_eq!(msgs[2].len(), 99);
}

#[test]
fn empty_recorder_forced_analysis_is_no_audio() {
    let mut r = recorder();
    let speakers = match r.flush_audio() {
        Ok(files) => files.len(),
        Err(RecorderError::NoData) => 0,
        Err(RecorderError::Io(_)) => 0,
    };
    let mut run = AnalysisRun::new(false, "2024-01-01 10:00".to_string());
    let action = run.step(PipelineEvent::Flushed { speakers });
    assert!(matches!(action, PipelineAction::Finish(AnalysisResult::NoAudio)));
    assert!(matches!(run.stage, PipelineStage::Finished));
    assert!(matches!(run.step(PipelineEvent::Published), PipelineAction::Ignore));
}

#[test]
fn rate_limit_publishes_the_fixed_advisory() {
    let failure = generation_failure(429, "429 Too Many Requests", "{\"error\": \"raw body\"}");
    assert!(matches!(failure, AnalyzerError::RateLimitExceeded));
    let mut run = AnalysisRun::new(false, "2024-01-01 10:00".to_string());
    assert!(matches!(run.step(PipelineEvent::Flushed { speakers: 2 }), PipelineAction::PersistAndUpload));
    assert!(matches!(run.step(PipelineEvent::Uploaded { succeeded: 2 }), PipelineAction::Analyze));
    match run.step(PipelineEvent::Analyzed(Err(failure))) {
        PipelineAction::Publish(p) => {
            assert_eq!(p.messages, vec![format!("📊 **議論分析レポート**\n{}", RATE_LIMIT_NOTICE)]);
            assert!(!p.messages[0].contains("raw body"));
            assert_eq!(p.starter, "📅 **自動分析** (2024-01-01 10:00)");
            assert_eq!(p.thread_title, "議論分析レポート 2024-01-01 10:00");
            assert!(p.context.is_none());
        }
        _ => panic!("expected a publication"),
    }
    assert!(matches!(run.step(PipelineEvent::Published), PipelineAction::CleanUp));
    assert!(matches!(run.step(PipelineEvent::CleanedUp), PipelineAction::Finish(AnalysisResult::RateLimited)));
}

#[test]
fn successful_final_pass_publishes_and_keeps_context() {
    let mut run = AnalysisRun::new(true, "T".to_string());
    run.step(PipelineEvent::Flushed { speakers: 1 });
    run.step(PipelineEvent::Uploaded { succeeded: 1 });
    match run.step(PipelineEvent::Analyzed(Ok("report".to_string()))) {
        PipelineAction::Publish(p) => {
            assert_eq!(p.messages, vec!["🏁 **最終分析レポート**\nreport".to_string()]);
            assert_eq!(p.starter, "🛑 **セッション終了** (T)");
            assert_eq!(p.thread_title, "議論分析レポート (最終) T");
            assert_eq!(p.context.as_deref(), Some("report"));
        }
        _ => panic!("expected a publication"),
    }
    run.step(PipelineEvent::Published);
    match run.step(PipelineEvent::CleanedUp) {
        PipelineAction::Finish(AnalysisResult::Success(t)) => assert_eq!(t, "report"),
        _ => panic!("expected success"),
    }
}

#[test]
fn failed_uploads_end_in_no_audio_after_cleanup() {
    let mut run = AnalysisRun::new(false, "T".to_string());
    run.step(PipelineEvent::Flushed { speakers: 3 });
    assert!(matches!(run.step(PipelineEvent::Uploaded { succeeded: 0 }), PipelineAction::CleanUp));
    assert!(matches!(run.step(PipelineEvent::CleanedUp), PipelineAction::Finish(AnalysisResult::NoAudio)));
}

#[test]
fn transient_errors_are_published_as_text() {
    let mut run = AnalysisRun::new(false, "T".to_string());
    run.step(PipelineEvent::Flushed { speakers: 1 });
    run.step(PipelineEvent::Uploaded { succeeded: 1 });
    match run.step(PipelineEvent::Analyzed(Err(AnalyzerError::Http("timeout".to_string())))) {
        PipelineAction::Publish(p) => {
            let expected = format!("📊 **議論分析レポート**\n{}HTTP request failed: timeout", ERROR_NOTICE_PREFIX);
            assert_eq!(p.messages, vec![expected]);
        }
        _ => panic!("expected a publication"),
    }
    match classify_outcome(Err(AnalyzerError::Api("bad".to_string()))) {
        AnalysisResult::TransientError(m) => assert_eq!(m, "API error: bad"),
        _ => panic!("expected a transient error"),
    }
    assert!(matches!(classify_outcome(Err(AnalyzerError::NoAudioFiles)), AnalysisResult::NoAudio));
}

#[test]
fn analyzer_errors_read_as_text() {
    assert_eq!(AnalyzerError::Io("gone".to_string()).message(), "IO error: gone");
    assert_eq!(AnalyzerError::NoAudioFiles.message(), "No audio files provided");
    assert_eq!(AnalyzerError::RateLimitExceeded.message(), "Rate limit exceeded");
}

#[test]
fn quota_is_detected_by_status_or_body() {
    assert!(is_rate_limited(429, ""));
    assert!(is_rate_limited(403, "Error: Quota exceeded for model"));
    assert!(!is_rate_limited(500, "quota"));
    match generation_failure(500, "500 Internal Server Error", "oops") {
        AnalyzerError::Api(m) => assert_eq!(m, "Generation failed: 500 Internal Server Error - oops"),
        _ => panic!("expected an API error"),
    }
}

#[test]
fn replies_become_report_text() {
    let reply = GenerateReply {
        candidates: Some(vec![vec![Some("first".to_string()), Some("second".to_string())]]),
        error_message: None,
    };
    assert_eq!(report_from_reply(reply).unwrap(), "first");
    let empty = GenerateReply { candidates: Some(vec![]), error_message: None };
    assert_eq!(report_from_reply(empty).unwrap(), NO_RESULT_TEXT);
    let failed = GenerateReply { candidates: None, error_message: Some("denied".to_string()) };
    match report_from_reply(failed) {
        Err(AnalyzerError::Api(m)) => assert_eq!(m, "denied"),
        _ => panic!("expected the service's error"),
    }
}

#[test]
fn request_texts() {
    let texts = request_preamble(AnalysisMode::Summary, "");
    assert_eq!(texts, vec![prompts::SUMMARY.to_string()]);
    let texts = request_preamble(AnalysisMode::Debate, "before");
    assert_eq!(texts[1], "前回の文脈:\nbefore\n---\n今回の議論:");
    assert_eq!(speaker_label_text("Bob"), "発言者: Bob");
}

#[test]
fn file_polling_gives_up_after_the_limit() {
    assert_eq!(next_file_poll(1, &FileState::Reported("ACTIVE".to_string())), FilePollStep::Ready);
    assert_eq!(next_file_poll(1, &FileState::Reported("FAILED".to_string())), FilePollStep::Failed);
    assert_eq!(next_file_poll(1, &FileState::Reported("PROCESSING".to_string())), FilePollStep::Retry);
    assert_eq!(next_file_poll(29, &FileState::Unknown), FilePollStep::Retry);
    assert_eq!(next_file_poll(30, &FileState::Unknown), FilePollStep::TimedOut);
    match file_poll_error(FilePollStep::TimedOut) {
        Some(AnalyzerError::Api(m)) => assert_eq!(m, "File processing timeout"),
        _ => panic!("expected a timeout error"),
    }
    match file_poll_error(FilePollStep::Failed) {
        Some(AnalyzerError::Api(m)) => assert_eq!(m, "File processing failed"),
        _ => panic!("expected a failure"),
    }
    assert!(file_poll_error(FilePollStep::Ready).is_none());
}

#[test]
fn stop_mid_sleep_runs_one_final_pass() {
    let mut state = SchedulerState::Idle;
    let mut actions = Vec::new();
    let events = [
        SchedulerEvent::Started,
        SchedulerEvent::SettingsRead { active: true, interval_secs: 300 },
        SchedulerEvent::StopRequested,
        SchedulerEvent::Woke { active: false },
        SchedulerEvent::StopRequested,
        SchedulerEvent::FinalAnalysisDone,
        SchedulerEvent::Started,
    ];
    for e in events {
        let (next, action) = scheduler_step(state, e);
        state = next;
        actions.push(action);
    }
    assert_eq!(actions[1], SchedulerAction::Sleep(300));
    assert_eq!(actions[2], SchedulerAction::CancelAndRunFinal);
    assert_eq!(actions.iter().filter(|a| **a == SchedulerAction::CancelAndRunFinal).count(), 1);
    assert!(!actions.contains(&SchedulerAction::RunAnalysis));
    assert_eq!(actions[5], SchedulerAction::Exit);
    assert_eq!(state, SchedulerState::Terminated);
}

#[test]
fn interval_changes_apply_on_the_next_round() {
    let (s, a) = scheduler_step(SchedulerState::Idle, SchedulerEvent::Started);
    assert_eq!(a, SchedulerAction::ReadSettings);
    let (s, a) = scheduler_step(s, SchedulerEvent::SettingsRead { active: true, interval_secs: 300 });
    assert_eq!(a, SchedulerAction::Sleep(300));
    let (s, a) = scheduler_step(s, SchedulerEvent::Woke { active: true });
    assert_eq!(a, SchedulerAction::RunAnalysis);
    let (s, a) = scheduler_step(s, SchedulerEvent::AnalysisDone);
    assert_eq!(a, SchedulerAction::ReadSettings);
    let (s, a) = scheduler_step(s, SchedulerEvent::SettingsRead { active: true, interval_secs: 60 });
    assert_eq!(a, SchedulerAction::Sleep(60));
    let (s, a) = scheduler_step(s, SchedulerEvent::Woke { active: false });
    assert_eq!(a, SchedulerAction::Exit);
    assert_eq!(s, SchedulerState::Terminated);
}

#[test]
fn config_from_values() {
    let env = |token: Option<&str>, key: Option<&str>, guild: Option<&str>| EnvValues {
        discord_token: token.map(|s| s.to_string()),
        gemini_api_key: key.map(|s| s.to_string()),
        guild_id: guild.map(|s| s.to_string()),
        temp_audio_dir: None,
        recording_interval: Some("abc".to_string()),
    };
    match Config::from_values(env(None, Some("k"), None)) {
        Err(ConfigError::MissingEnvVar(v)) => assert_eq!(v, "DISCORD_TOKEN"),
        _ => panic!("expected a missing token"),
    }
    match Config::from_values(env(Some("t"), None, None)) {
        Err(e @ ConfigError::MissingEnvVar(_)) => {
            assert_eq!(e.message(), "Missing required environment variable: GEMINI_API_KEY")
        }
        _ => panic!("expected a missing key"),
    }
    match Config::from_values(env(Some("t"), Some("k"), Some("12x"))) {
        Err(e @ ConfigError::InvalidValue(_, _)) => assert_eq!(e.message(), "Invalid value for GUILD_ID: 12x"),
        _ => panic!("expected an invalid tenant id"),
    }
    let c = Config::from_values(env(Some("t"), Some("k"), Some(""))).unwrap();
    assert_eq!(c.guild_id, None);
    assert_eq!(c.temp_audio_dir, "temp_audio");
    assert_eq!(c.default_recording_interval, 300);
    assert_eq!(c.sample_rate, 48000);
    assert_eq!(c.channels, 2);
    let c = Config::from_values(env(Some("t"), Some("k"), Some("987"))).unwrap();
    assert_eq!(c.guild_id, Some(987));
}

#[test]
fn audio_files_and_extensions() {
    assert!(AudioProcessor::needs_conversion("a/b/c.opus"));
    assert!(!AudioProcessor::needs_conversion("c.ogg"));
    assert!(!AudioProcessor::needs_conversion("opus"));
    assert_eq!(AudioProcessor::get_mime_type("x.flac"), "audio/flac");
    assert_eq!(AudioProcessor::get_mime_type("x.wav"), "audio/wav");
    assert_eq!(AudioProcessor::get_mime_type("x.pcm"), "audio/pcm");
    assert_eq!(AudioProcessor::get_mime_type("noext"), "audio/ogg");
    match AudioProcessor::prepare_for_upload("/no/such/dir/clip.opus") {
        Err(ProcessorError::NotFound(p)) => assert_eq!(p, "/no/such/dir/clip.opus"),
        _ => panic!("expected not found"),
    }
}

#[test]
fn extension_and_name_tables() {
    assert_eq!(AudioProcessor::mime_type_for_extension(Some("mp3")), "audio/mp3");
    assert_eq!(AudioProcessor::mime_type_for_extension(Some("opus")), "audio/ogg");
    assert_eq!(AudioProcessor::mime_type_for_extension(Some("MP3")), "audio/ogg");
    assert_eq!(AudioProcessor::mime_type_for_extension(None), "audio/ogg");
    assert_eq!(AudioProcessor::upload_path("clip.opus", true).unwrap(), "clip.opus");
    match AudioProcessor::upload_path("clip.opus", false) {
        Err(ProcessorError::NotFound(p)) => assert_eq!(p, "clip.opus"),
        _ => panic!("expected not found"),
    }
    assert!(text_contains("会議の書記です", "書記"));
    assert!(text_contains("abc", ""));
    assert!(!text_contains("ab", "abc"));
    assert!(!text_contains("abcab", "ba"));
    assert_eq!(AnalysisMode::from_lowercase_name("debate"), Some(AnalysisMode::Debate));
    assert_eq!(AnalysisMode::from_lowercase_name("Debate"), None);
}
