use neen_desktop_agent::voice_processor::{pcm16_samples, VoiceProcessor, AUDIO_WINDOW};

#[test]
fn listening_flag() {
    let mut v = VoiceProcessor::new();
    assert!(!v.is_listening());
    v.start_listening();
    assert!(v.is_listening());
    v.stop_listening();
    assert!(!v.is_listening());
}

#[test]
fn stand_in_detectors() {
    let v = VoiceProcessor::new();
    assert!(!v.detect_wake_word(&vec![0u8; 1000]));
    assert!(v.detect_wake_word(&vec![0u8; 1001]));
    assert_eq!(v.extract_command(&vec![0u8; 10]), "Show me today's leads");
    assert_eq!(v.extract_command(&vec![0u8; 7]), "Send WhatsApp message to customer");
    assert_eq!(v.extract_command(&vec![0u8; 4]), "Schedule a meeting for tomorrow");
    assert!(VoiceProcessor::simulate_wake_word_detection(&vec![0u8; 8001], "Hey NeeN"));
    assert!(!VoiceProcessor::simulate_wake_word_detection(&vec![0u8; 8000], "Hey NeeN"));
    assert!(VoiceProcessor::simulate_wake_word_detection(&vec![0u8; 2001], "é"));
    assert_eq!(VoiceProcessor::simulate_command_extraction(&vec![0u8; 16384]), "Open calculator");
    assert_eq!(VoiceProcessor::simulate_command_extraction(&vec![0u8; 3]), "Schedule meeting");
}

#[test]
fn continuous_buffering() {
    let v = VoiceProcessor::new();
    let mut buffer = Vec::new();
    let chunk = vec![0u8; 4096];
    for _ in 0..3 {
        assert_eq!(v.process_audio_chunk(&mut buffer, &chunk), None);
    }
    assert_eq!(buffer.len(), 3 * 4096);
    assert_eq!(v.process_audio_chunk(&mut buffer, &chunk), Some("Open calculator".to_string()));
    assert!(buffer.is_empty());
    assert_eq!(AUDIO_WINDOW, 16384);
}

#[test]
fn long_wake_word_is_not_heard() {
    let mut v = VoiceProcessor::new();
    v.set_wake_word("a very long wake word".to_string());
    let mut buffer = vec![0u8; 16000];
    assert_eq!(v.process_audio_chunk(&mut buffer, &vec![0u8; 384]), None);
    assert!(buffer.is_empty());
}

#[test]
fn pcm_and_wav() {
    assert_eq!(pcm16_samples(&[0x01, 0x00, 0xff, 0xff, 0x00, 0x80, 0x07]), vec![1, -1, -32768]);
    let v = VoiceProcessor::new();
    let wav = v.convert_to_wav(&[0x01, 0x00, 0xff, 0x7f, 0x09], 16000).unwrap();
    let mut expected: Vec<u8> = Vec::new();
    expected.extend_from_slice(b"RIFF");
    expected.extend_from_slice(&[40, 0, 0, 0]);
    expected.extend_from_slice(b"WAVEfmt ");
    expected.extend_from_slice(&[16, 0, 0, 0, 1, 0, 1, 0]);
    expected.extend_from_slice(&[0x80, 0x3e, 0, 0, 0x00, 0x7d, 0, 0, 2, 0, 16, 0]);
    expected.extend_from_slice(b"data");
    expected.extend_from_slice(&[4, 0, 0, 0, 0x01, 0x00, 0xff, 0x7f]);
    assert_eq!(wav, expected);
    let empty = v.convert_to_wav(&[], 8000).unwrap();
    assert_eq!(empty.len(), 44);
    assert_eq!(&empty[4..8], &[36, 0, 0, 0]);
    assert_eq!(&empty[24..28], &[0x40, 0x1f, 0, 0]);
}

#[test]
fn audio_devices() {
    let v = VoiceProcessor::new();
    let d = v.get_audio_devices();
    assert_eq!(d.len(), 3);
    assert_eq!(d[0].id, "default");
    assert!(d[1].is_input && !d[1].is_default);
    assert!(!d[2].is_input && d[2].is_default);
}

#[test]
fn four_chunks_fill_the_window() {
    for (wake, heard) in [("a".repeat(16), true), ("a".repeat(17), false)] {
        let mut v = VoiceProcessor::new();
        v.set_wake_word(wake.clone());
        let mut buffer = Vec::new();
        let chunk = vec![0u8; 4096];
        for _ in 0..3 {
            assert_eq!(v.process_audio_chunk(&mut buffer, &chunk), None);
        }
        assert_eq!(buffer.len(), 12288);
        let r = VoiceProcessor::process_audio_window(v.wake_word_text(), &mut buffer, &chunk);
        assert_eq!(r.is_some(), heard);
        assert!(buffer.is_empty());
    }
}
