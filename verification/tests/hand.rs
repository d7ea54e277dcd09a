//! Tests for frame decoding and the hand state engine, driving the library
//! with frames built from real IEEE-754 single-precision values.

use mtg_drivers::fbits::FINGER_BENDING_MAX_THRESHOLD_BITS;
use mtg_drivers::fbits::FINGER_BENDING_MIN_THRESHOLD_BITS;
use mtg_drivers::hand::DecodeError;
use mtg_drivers::hand::Hand;
use mtg_drivers::hand::HandModel;
use mtg_drivers::hand::HandPart;
use mtg_drivers::hand::FRAME_LEN;

/// Builds one 312-byte frame from 78 floats in wire order.
fn frame_from_words(words: &[f32; 78]) -> Vec<u8> {
    let mut raw = Vec::with_capacity(FRAME_LEN);
    for w in words.iter() {
        raw.extend_from_slice(&w.to_le_bytes());
    }
    assert_eq!(raw.len(), FRAME_LEN);
    raw
}

/// Builds a frame whose coordinate words are distinct values and whose five
/// finger Euler Y-angles are as given; every other Euler word is zero.
fn frame_with_euler_y(thumb: f32, index: f32, middle: f32, ring: f32, little: f32) -> Vec<u8> {
    let mut words = [0.0f32; 78];
    for (k, w) in words.iter_mut().enumerate().take(60) {
        *w = 0.25 + k as f32;
    }
    words[64] = thumb;
    words[67] = index;
    words[70] = middle;
    words[73] = ring;
    words[76] = little;
    frame_from_words(&words)
}

fn decoded(raw: Vec<u8>) -> HandModel {
    HandModel::from_raw_data(raw).expect("a whole frame must decode")
}

/// The threshold constants are the bit patterns of the angles the firmware
/// side computes: (60/180)*pi in single precision, and its negation.
#[test]
fn threshold_bits_match_the_float_formula() {
    let max_t: f32 = 60.0 / 180.0 * std::f32::consts::PI;
    let min_t: f32 = -60.0 / 180.0 * std::f32::consts::PI;
    assert_eq!(max_t.to_bits(), FINGER_BENDING_MAX_THRESHOLD_BITS);
    assert_eq!(min_t.to_bits(), FINGER_BENDING_MIN_THRESHOLD_BITS);
}

#[test]
fn decode_rejects_wrong_lengths() {
    for len in [0usize, 1, 311, 313, 1000] {
        let raw = vec![0u8; len];
        let r = HandModel::from_raw_data(raw);
        assert!(
            matches!(r, Err(DecodeError::MalformedFrame)),
            "length {len} must be rejected"
        );
    }
}

#[test]
fn decode_accepts_exactly_one_frame_length() {
    let raw = vec![0u8; FRAME_LEN];
    assert!(HandModel::from_raw_data(raw).is_ok());
}

/// Round trip: decode, apply, snapshot; every pose field equals the value
/// that was written into the frame, bit for bit.
#[test]
fn decode_apply_snapshot_round_trip() {
    let mut words = [0.0f32; 78];
    for (k, w) in words.iter_mut().enumerate() {
        *w = -3.5 + 0.125 * k as f32;
    }
    let model = decoded(frame_from_words(&words));
    let mut hand = Hand::default();
    hand.update_model(model);
    let (pose, _) = hand.snapshot();

    let expect = |k: usize| words[k].to_bits();
    for j in 0..3 {
        assert_eq!(pose.palm_coords[0][j], expect(j));
    }
    for i in 0..3 {
        for j in 0..3 {
            assert_eq!(pose.thumb_coords[i][j], expect(3 + 3 * i + j));
        }
    }
    for i in 0..4 {
        for j in 0..3 {
            assert_eq!(pose.index_coords[i][j], expect(12 + 3 * i + j));
            assert_eq!(pose.middle_coords[i][j], expect(24 + 3 * i + j));
            assert_eq!(pose.ring_coords[i][j], expect(36 + 3 * i + j));
            assert_eq!(pose.little_coords[i][j], expect(48 + 3 * i + j));
        }
    }
    for j in 0..3 {
        assert_eq!(pose.palm_euler[j], expect(60 + j));
        assert_eq!(pose.thumb_euler[j], expect(63 + j));
        assert_eq!(pose.index_euler[j], expect(66 + j));
        assert_eq!(pose.middle_euler[j], expect(69 + j));
        assert_eq!(pose.ring_euler[j], expect(72 + j));
        assert_eq!(pose.little_euler[j], expect(75 + j));
    }

    // The getters report the same record as the snapshot.
    assert_eq!(hand.get_palm_coords(), pose.palm_coords);
    assert_eq!(hand.get_thumb_coords(), pose.thumb_coords);
    assert_eq!(hand.get_index_coords(), pose.index_coords);
    assert_eq!(hand.get_middle_coords(), pose.middle_coords);
    assert_eq!(hand.get_ring_coords(), pose.ring_coords);
    assert_eq!(hand.get_little_coords(), pose.little_coords);
    assert_eq!(hand.get_euler(HandPart::Palm), pose.palm_euler);
    assert_eq!(hand.get_euler(HandPart::Thumb), pose.thumb_euler);
    assert_eq!(hand.get_euler(HandPart::Index), pose.index_euler);
    assert_eq!(hand.get_euler(HandPart::Middle), pose.middle_euler);
    assert_eq!(hand.get_euler(HandPart::Ring), pose.ring_euler);
    assert_eq!(hand.get_euler(HandPart::Little), pose.little_euler);
}

/// Determinism: applying the identical frame twice yields identical gesture
/// summaries both times.
#[test]
fn apply_twice_yields_identical_summaries() {
    let raw = frame_with_euler_y(2.0, 1.5, 0.0, -2.0, 0.4);
    let model = decoded(raw);
    let mut hand = Hand::default();
    hand.update_model(model);
    let first_bent = hand.get_bent_fingers();
    let first_contact = hand.get_finger_touching_thumb();
    hand.update_model(model);
    assert_eq!(hand.get_bent_fingers(), first_bent);
    assert_eq!(hand.get_finger_touching_thumb(), first_contact);
}

/// Boundary: an Euler Y-angle exactly at +pi/3 or -pi/3 is not bent (the
/// straight band is closed); the next representable float past either end is
/// bent.
#[test]
fn euler_y_exactly_at_threshold_is_not_bent() {
    let max_t = f32::from_bits(FINGER_BENDING_MAX_THRESHOLD_BITS);
    let min_t = f32::from_bits(FINGER_BENDING_MIN_THRESHOLD_BITS);
    let mut hand = Hand::default();
    hand.update_model(decoded(frame_with_euler_y(0.0, max_t, min_t, 0.0, 0.0)));
    assert!(hand.get_bent_fingers().is_empty());

    let just_above = f32::from_bits(FINGER_BENDING_MAX_THRESHOLD_BITS + 1);
    let just_below = f32::from_bits(FINGER_BENDING_MIN_THRESHOLD_BITS + 1);
    assert!(just_above > max_t);
    assert!(just_below < min_t);
    hand.update_model(decoded(frame_with_euler_y(0.0, just_above, just_below, 0.0, 0.0)));
    assert_eq!(hand.get_bent_fingers(), vec![HandPart::Index, HandPart::Middle]);
}

/// The bent set lists the bent fingers in the fixed thumb-to-little order and
/// never contains the palm, whatever the palm's orientation.
#[test]
fn bent_set_is_ordered_and_palm_free() {
    let mut words = [0.0f32; 78];
    words[61] = 3.0; // palm Euler Y, far outside the band
    words[64] = 3.0;
    words[70] = -3.0;
    words[76] = 2.0;
    let mut hand = Hand::default();
    hand.update_model(decoded(frame_from_words(&words)));
    assert_eq!(
        hand.get_bent_fingers(),
        vec![HandPart::Thumb, HandPart::Middle, HandPart::Little]
    );
}

/// A NaN Euler Y-angle compares outside the band, so the finger counts as
/// bent, exactly as IEEE-754 comparisons behave.
#[test]
fn nan_euler_y_counts_as_bent() {
    let mut hand = Hand::default();
    hand.update_model(decoded(frame_with_euler_y(0.0, f32::NAN, 0.0, 0.0, 0.0)));
    assert_eq!(hand.get_bent_fingers(), vec![HandPart::Index]);
}

/// Thumb-contact priority: thumb, index and middle all bent resolves to the
/// index finger, never the middle one.
#[test]
fn contact_prefers_index_over_middle() {
    let mut hand = Hand::default();
    hand.update_model(decoded(frame_with_euler_y(2.0, 2.0, 2.0, 0.0, 0.0)));
    assert_eq!(hand.get_finger_touching_thumb(), Some(HandPart::Index));
}

/// The scan runs index, middle, ring, little: with index straight the first
/// bent of the rest wins.
#[test]
fn contact_scan_order_falls_through() {
    let mut hand = Hand::default();
    hand.update_model(decoded(frame_with_euler_y(2.0, 0.0, 0.0, -2.0, 2.0)));
    assert_eq!(hand.get_finger_touching_thumb(), Some(HandPart::Ring));
}

/// Thumb-contact absence: a bent thumb alone has no contact; a straight
/// thumb has none regardless of the other fingers.
#[test]
fn contact_absent_without_partner_or_thumb() {
    let mut hand = Hand::default();
    hand.update_model(decoded(frame_with_euler_y(2.0, 0.0, 0.0, 0.0, 0.0)));
    assert_eq!(hand.get_finger_touching_thumb(), None);

    hand.update_model(decoded(frame_with_euler_y(0.0, 2.0, 2.0, 2.0, 2.0)));
    assert_eq!(hand.get_finger_touching_thumb(), None);
}

/// The startup state: all-zero pose, nothing bent, no contact, zero
/// acceleration; and the acceleration never changes, since the wire frame
/// carries no motion sample.
#[test]
fn default_state_is_neutral_and_acceleration_is_carried() {
    let hand = Hand::default();
    assert_eq!(hand.get_palm_coords(), [[0u32; 3]; 1]);
    assert_eq!(hand.get_euler(HandPart::Thumb), [0u32; 3]);
    assert!(hand.get_bent_fingers().is_empty());
    assert_eq!(hand.get_finger_touching_thumb(), None);
    assert_eq!(hand.get_acceleration(), [0u32; 3]);

    let mut hand = hand;
    hand.update_model(decoded(frame_with_euler_y(2.0, 2.0, 0.0, 0.0, 0.0)));
    assert_eq!(hand.get_acceleration(), [0u32; 3]);
    let (_, summary) = hand.snapshot();
    assert_eq!(summary.acceleration, [0u32; 3]);
}

/// A snapshot pair is consistent: the summary half is the one derived from
/// the pose half.
#[test]
fn snapshot_pair_is_consistent() {
    let mut hand = Hand::default();
    hand.update_model(decoded(frame_with_euler_y(2.0, 0.0, 2.0, 0.0, 0.0)));
    let (pose, summary) = hand.snapshot();
    assert_eq!(pose.thumb_euler[1], 2.0f32.to_bits());
    assert_eq!(summary.bent_fingers, vec![HandPart::Thumb, HandPart::Middle]);
    assert_eq!(summary.finger_touching_thumb, Some(HandPart::Middle));
}

/// update_gestures alone recomputes the summary from the stored pose.
#[test]
fn update_gestures_recomputes_from_stored_pose() {
    let mut hand = Hand::default();
    hand.update_model(decoded(frame_with_euler_y(2.0, 2.0, 0.0, 0.0, 0.0)));
    hand.update_gestures();
    assert_eq!(hand.get_bent_fingers(), vec![HandPart::Thumb, HandPart::Index]);
    assert_eq!(hand.get_finger_touching_thumb(), Some(HandPart::Index));
}

/// The part enumeration is closed and ordered, palm first.
#[test]
fn parts_come_in_fixed_order() {
    assert_eq!(
        HandPart::all(),
        vec![
            HandPart::Palm,
            HandPart::Thumb,
            HandPart::Index,
            HandPart::Middle,
            HandPart::Ring,
            HandPart::Little,
        ]
    );
}
