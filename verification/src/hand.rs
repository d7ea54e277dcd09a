//! Pose record, frame decoding, and gesture derivation.
//!
//! One sensor frame is 312 bytes: 26 consecutive little-endian 32-bit
//! IEEE-754 floats grouped as 20 coordinate triples (palm 1, thumb 3, and 4
//! for each of index, middle, ring and little) followed by 6 Euler-angle
//! triples in the same part order. [`HandModel::from_raw_data`] reads that
//! layout field by field; [`Hand`] stores the decoded record and recomputes
//! the gesture summary from it on every update.

use vstd::bytes::u32_from_le_bytes;
use vstd::prelude::*;
use vstd::slice::slice_subrange;

use crate::fbits::spec_within_bend_range;
use crate::fbits::within_bend_range;

verus! {

/// One part of the hand, used to select coordinate groups and Euler triples
/// and to label gesture membership. A closed, ordered set: palm first, then
/// the fingers from thumb to little.
#[derive(Debug, Clone, Copy, PartialEq, Eq, Structural)]
pub enum HandPart {
    Palm,
    Thumb,
    Index,
    Middle,
    Ring,
    Little,
}

impl HandPart {
    /// All six parts, in their fixed order.
    pub fn all() -> (r: Vec<HandPart>)
        ensures
            r@ == seq![
                HandPart::Palm,
                HandPart::Thumb,
                HandPart::Index,
                HandPart::Middle,
                HandPart::Ring,
                HandPart::Little,
            ],
    {
        let mut v: Vec<HandPart> = Vec::new();
        v.push(HandPart::Palm);
        v.push(HandPart::Thumb);
        v.push(HandPart::Index);
        v.push(HandPart::Middle);
        v.push(HandPart::Ring);
        v.push(HandPart::Little);
        proof {
            assert(v@ =~= seq![
                HandPart::Palm,
                HandPart::Thumb,
                HandPart::Index,
                HandPart::Middle,
                HandPart::Ring,
                HandPart::Little,
            ]);
        }
        v
    }
}

/// Why a raw frame was rejected.
#[derive(Debug, Clone, Copy, PartialEq, Eq, Structural)]
pub enum DecodeError {
    /// The buffer is not exactly one whole frame (312 bytes).
    MalformedFrame,
}

/// Number of bytes in one whole sensor frame: 26 triples of 4-byte floats.
pub const FRAME_LEN: usize = 312;

/// The decoded pose record: Cartesian joint coordinates and Euler-angle
/// triples for each hand part, every value kept as the raw bit pattern of the
/// IEEE-754 single-precision float that arrived on the wire.
#[derive(Debug, Clone, Copy)]
#[verifier::ext_equal]
pub struct HandModel {
    // Cartesian coordinates, one [x, y, z] bit-pattern triple per joint
    pub palm_coords: [[u32; 3]; 1],
    pub thumb_coords: [[u32; 3]; 3],
    pub index_coords: [[u32; 3]; 4],
    pub middle_coords: [[u32; 3]; 4],
    pub ring_coords: [[u32; 3]; 4],
    pub little_coords: [[u32; 3]; 4],
    // Euler angles about X, Y, Z, as bit-pattern triples
    pub palm_euler: [u32; 3],
    pub thumb_euler: [u32; 3],
    pub index_euler: [u32; 3],
    pub middle_euler: [u32; 3],
    pub ring_euler: [u32; 3],
    pub little_euler: [u32; 3],
}

/// The `k`-th little-endian 32-bit word of a frame, counting words from the
/// start of the buffer.
pub open spec fn wire_word(raw: Seq<u8>, k: int) -> u32 {
    vstd::bytes::spec_u32_from_le_bytes(raw.subrange(4 * k, 4 * k + 4))
}

/// A coordinate group matches the frame: joint `i`'s axis `j` holds the wire
/// word at triple offset `base + 3 * i + j`.
pub open spec fn coords_match(c: Seq<[u32; 3]>, raw: Seq<u8>, base: int) -> bool {
    forall|i: int, j: int|
        0 <= i < c.len() && 0 <= j < 3 ==> c[i]@[j] == wire_word(raw, base + 3 * i + j)
}

/// An Euler triple matches the frame at word offset `base`.
pub open spec fn euler_matches(e: [u32; 3], raw: Seq<u8>, base: int) -> bool {
    forall|j: int| 0 <= j < 3 ==> e@[j] == wire_word(raw, base + j)
}

/// The whole pose record equals, field by field, the 78 words of the frame in
/// wire order: 60 coordinate words, then 18 Euler words.
pub open spec fn decode_ok(raw: Seq<u8>, m: HandModel) -> bool {
    &&& coords_match(m.palm_coords@, raw, 0)
    &&& coords_match(m.thumb_coords@, raw, 3)
    &&& coords_match(m.index_coords@, raw, 12)
    &&& coords_match(m.middle_coords@, raw, 24)
    &&& coords_match(m.ring_coords@, raw, 36)
    &&& coords_match(m.little_coords@, raw, 48)
    &&& euler_matches(m.palm_euler, raw, 60)
    &&& euler_matches(m.thumb_euler, raw, 63)
    &&& euler_matches(m.index_euler, raw, 66)
    &&& euler_matches(m.middle_euler, raw, 69)
    &&& euler_matches(m.ring_euler, raw, 72)
    &&& euler_matches(m.little_euler, raw, 75)
}

/// Reads the `k`-th little-endian word of the buffer.
fn word(raw: &[u8], k: usize) -> (r: u32)
    requires
        4 * (k as int) + 4 <= raw@.len(),
    ensures
        r == wire_word(raw@, k as int),
{
    // binding the length as a usize lets the solver see that the word
    // offsets below cannot overflow
    let n: usize = raw.len();
    proof {
        assert(n == raw@.len());
    }
    let sub: &[u8] = slice_subrange(raw, 4 * k, 4 * k + 4);
    u32_from_le_bytes(sub)
}

/// Reads one [x, y, z] triple starting at word offset `k`.
fn read_triple(raw: &[u8], k: usize) -> (r: [u32; 3])
    requires
        4 * (k as int) + 12 <= raw@.len(),
    ensures
        forall|j: int| 0 <= j < 3 ==> r@[j] == wire_word(raw@, k + j),
{
    // binding the length as a usize lets the solver see that the word
    // offsets below cannot overflow
    let n: usize = raw.len();
    proof {
        assert(n == raw@.len());
    }
    [word(raw, k), word(raw, k + 1), word(raw, k + 2)]
}

impl HandModel {
    /// Decodes one raw frame. Fails closed: any buffer that is not exactly
    /// [`FRAME_LEN`] bytes is rejected as [`DecodeError::MalformedFrame`],
    /// and a well-sized buffer decodes to the record whose every field equals
    /// the corresponding wire word ([`decode_ok`]). Pure: no state, no
    /// partial records.
    pub fn from_raw_data(raw_data: Vec<u8>) -> (r: Result<HandModel, DecodeError>)
        ensures
            r is Ok <==> raw_data@.len() == FRAME_LEN,
            r is Err ==> r == Err::<HandModel, DecodeError>(DecodeError::MalformedFrame),
            r is Ok ==> decode_ok(raw_data@, r->Ok_0),
    {
        if raw_data.len() != FRAME_LEN {
            return Err(DecodeError::MalformedFrame);
        }
        let raw: &[u8] = raw_data.as_slice();
        let m = HandModel {
            palm_coords: [read_triple(raw, 0)],
            thumb_coords: [read_triple(raw, 3), read_triple(raw, 6), read_triple(raw, 9)],
            index_coords: [
                read_triple(raw, 12),
                read_triple(raw, 15),
                read_triple(raw, 18),
                read_triple(raw, 21),
            ],
            middle_coords: [
                read_triple(raw, 24),
                read_triple(raw, 27),
                read_triple(raw, 30),
                read_triple(raw, 33),
            ],
            ring_coords: [
                read_triple(raw, 36),
                read_triple(raw, 39),
                read_triple(raw, 42),
                read_triple(raw, 45),
            ],
            little_coords: [
                read_triple(raw, 48),
                read_triple(raw, 51),
                read_triple(raw, 54),
                read_triple(raw, 57),
            ],
            palm_euler: read_triple(raw, 60),
            thumb_euler: read_triple(raw, 63),
            index_euler: read_triple(raw, 66),
            middle_euler: read_triple(raw, 69),
            ring_euler: read_triple(raw, 72),
            little_euler: read_triple(raw, 75),
        };
        Ok(m)
    }
}

/// The Euler-angle triple of one part, in part order.
pub open spec fn spec_euler(m: HandModel, part: HandPart) -> [u32; 3] {
    match part {
        HandPart::Palm => m.palm_euler,
        HandPart::Thumb => m.thumb_euler,
        HandPart::Index => m.index_euler,
        HandPart::Middle => m.middle_euler,
        HandPart::Ring => m.ring_euler,
        HandPart::Little => m.little_euler,
    }
}

/// A part is classified as bent when its Euler Y-angle lies outside the
/// closed band [-pi/3, +pi/3]. Only the five fingers are ever classified;
/// the palm never enters a gesture set.
pub open spec fn spec_is_bent(m: HandModel, part: HandPart) -> bool {
    !spec_within_bend_range(spec_euler(m, part)@[1])
}

/// The bent-finger set derived from a pose: the bent ones among
/// {Thumb, Index, Middle, Ring, Little}, in that fixed order.
pub open spec fn spec_bent_fingers(m: HandModel) -> Seq<HandPart> {
    let s0: Seq<HandPart> = Seq::empty();
    let s1: Seq<HandPart> = if spec_is_bent(m, HandPart::Thumb) {
        s0.push(HandPart::Thumb)
    } else {
        s0
    };
    let s2: Seq<HandPart> = if spec_is_bent(m, HandPart::Index) {
        s1.push(HandPart::Index)
    } else {
        s1
    };
    let s3: Seq<HandPart> = if spec_is_bent(m, HandPart::Middle) {
        s2.push(HandPart::Middle)
    } else {
        s2
    };
    let s4: Seq<HandPart> = if spec_is_bent(m, HandPart::Ring) {
        s3.push(HandPart::Ring)
    } else {
        s3
    };
    if spec_is_bent(m, HandPart::Little) {
        s4.push(HandPart::Little)
    } else {
        s4
    }
}

/// The thumb-contact classification derived from a pose: evaluated only when
/// the thumb itself is bent, and then the first also-bent finger in the fixed
/// priority order index, middle, ring, little; none otherwise.
pub open spec fn spec_thumb_contact(m: HandModel) -> Option<HandPart> {
    if !spec_is_bent(m, HandPart::Thumb) {
        None
    } else if spec_is_bent(m, HandPart::Index) {
        Some(HandPart::Index)
    } else if spec_is_bent(m, HandPart::Middle) {
        Some(HandPart::Middle)
    } else if spec_is_bent(m, HandPart::Ring) {
        Some(HandPart::Ring)
    } else if spec_is_bent(m, HandPart::Little) {
        Some(HandPart::Little)
    } else {
        None
    }
}

/// The derived gesture summary: never set directly from outside, always
/// recomputed from the current pose record.
#[derive(Debug, Clone)]
pub struct HandGestures {
    /// The finger currently touching the thumb, if any.
    pub finger_touching_thumb: Option<HandPart>,
    /// The fingers currently classified as bent, in thumb-to-little order.
    pub bent_fingers: Vec<HandPart>,
    /// The last motion sample, as three float bit patterns. The wire frame
    /// carries no motion sample, so this stays at its startup value.
    pub acceleration: [u32; 3],
}

/// The hand state: the current pose record and the gesture summary derived
/// from it. The two are owned together and replaced together, so a reader
/// always sees a pair that originated from the same update.
#[derive(Debug, Clone)]
pub struct Hand {
    model: HandModel,
    gestures: HandGestures,
}

impl Hand {
    /// The pose record currently held.
    pub closed spec fn spec_model(self) -> HandModel {
        self.model
    }

    /// The gesture summary currently held.
    pub closed spec fn spec_gestures(self) -> HandGestures {
        self.gestures
    }

    /// Well-formedness: the stored summary is exactly the one derived from
    /// the stored pose. Both constructors establish this and every update
    /// re-establishes it, so no reachable state holds a torn pair.
    pub open spec fn wf(self) -> bool {
        &&& self.spec_gestures().bent_fingers@ == spec_bent_fingers(self.spec_model())
        &&& self.spec_gestures().finger_touching_thumb == spec_thumb_contact(self.spec_model())
    }

    pub fn get_palm_coords(&self) -> (r: [[u32; 3]; 1])
        ensures
            r == self.spec_model().palm_coords,
    {
        self.model.palm_coords
    }

    pub fn get_thumb_coords(&self) -> (r: [[u32; 3]; 3])
        ensures
            r == self.spec_model().thumb_coords,
    {
        self.model.thumb_coords
    }

    pub fn get_index_coords(&self) -> (r: [[u32; 3]; 4])
        ensures
            r == self.spec_model().index_coords,
    {
        self.model.index_coords
    }

    pub fn get_middle_coords(&self) -> (r: [[u32; 3]; 4])
        ensures
            r == self.spec_model().middle_coords,
    {
        self.model.middle_coords
    }

    pub fn get_ring_coords(&self) -> (r: [[u32; 3]; 4])
        ensures
            r == self.spec_model().ring_coords,
    {
        self.model.ring_coords
    }

    pub fn get_little_coords(&self) -> (r: [[u32; 3]; 4])
        ensures
            r == self.spec_model().little_coords,
    {
        self.model.little_coords
    }

    /// The Euler triple of the given part.
    pub fn get_euler(&self, part: HandPart) -> (r: [u32; 3])
        ensures
            r == spec_euler(self.spec_model(), part),
    {
        match part {
            HandPart::Palm => self.model.palm_euler,
            HandPart::Thumb => self.model.thumb_euler,
            HandPart::Index => self.model.index_euler,
            HandPart::Middle => self.model.middle_euler,
            HandPart::Ring => self.model.ring_euler,
            HandPart::Little => self.model.little_euler,
        }
    }

    /// A copy of the current bent-finger set.
    pub fn get_bent_fingers(&self) -> (r: Vec<HandPart>)
        ensures
            r@ == self.spec_gestures().bent_fingers@,
    {
        copy_parts(&self.gestures.bent_fingers)
    }

    /// The finger currently touching the thumb, if any.
    pub fn get_finger_touching_thumb(&self) -> (r: Option<HandPart>)
        ensures
            r == self.spec_gestures().finger_touching_thumb,
    {
        self.gestures.finger_touching_thumb
    }

    /// The last motion sample, as three float bit patterns.
    pub fn get_acceleration(&self) -> (r: [u32; 3])
        ensures
            r == self.spec_gestures().acceleration,
    {
        self.gestures.acceleration
    }

    /// One consistent read of the whole state: both halves of the returned
    /// pair come from the same stored state, never an old pose with a newer
    /// summary or the reverse.
    pub fn snapshot(&self) -> (r: (HandModel, HandGestures))
        ensures
            r.0 == self.spec_model(),
            r.1.finger_touching_thumb == self.spec_gestures().finger_touching_thumb,
            r.1.bent_fingers@ == self.spec_gestures().bent_fingers@,
            r.1.acceleration == self.spec_gestures().acceleration,
    {
        (
            self.model,
            HandGestures {
                finger_touching_thumb: self.gestures.finger_touching_thumb,
                bent_fingers: copy_parts(&self.gestures.bent_fingers),
                acceleration: self.gestures.acceleration,
            },
        )
    }

    /// Replaces the stored pose with `new_model` and recomputes the gesture
    /// summary from it, atomically from the caller's point of view. Total:
    /// never fails on any pose record.
    pub fn update_model(&mut self, new_model: HandModel)
        ensures
            final(self).spec_model() == new_model,
            final(self).spec_gestures().bent_fingers@ == spec_bent_fingers(new_model),
            final(self).spec_gestures().finger_touching_thumb == spec_thumb_contact(new_model),
            final(self).spec_gestures().acceleration == old(self).spec_gestures().acceleration,
            final(self).wf(),
    {
        self.model = new_model;
        self.update_gestures();
    }

    /// Recomputes the whole gesture summary from the stored pose: the
    /// bent-finger set is replaced wholesale, then the thumb contact is
    /// re-evaluated from the new set.
    pub fn update_gestures(&mut self)
        ensures
            final(self).spec_model() == old(self).spec_model(),
            final(self).spec_gestures().bent_fingers@ == spec_bent_fingers(old(self).spec_model()),
            final(self).spec_gestures().finger_touching_thumb == spec_thumb_contact(
                old(self).spec_model(),
            ),
            final(self).spec_gestures().acceleration == old(self).spec_gestures().acceleration,
            final(self).wf(),
    {
        let thumb_bent: bool = !within_bend_range(self.model.thumb_euler[1]);
        let index_bent: bool = !within_bend_range(self.model.index_euler[1]);
        let middle_bent: bool = !within_bend_range(self.model.middle_euler[1]);
        let ring_bent: bool = !within_bend_range(self.model.ring_euler[1]);
        let little_bent: bool = !within_bend_range(self.model.little_euler[1]);

        let mut bent: Vec<HandPart> = Vec::new();
        if thumb_bent {
            bent.push(HandPart::Thumb);
        }
        if index_bent {
            bent.push(HandPart::Index);
        }
        if middle_bent {
            bent.push(HandPart::Middle);
        }
        if ring_bent {
            bent.push(HandPart::Ring);
        }
        if little_bent {
            bent.push(HandPart::Little);
        }
        proof {
            assert(bent@ =~= spec_bent_fingers(self.model));
        }
        self.gestures.bent_fingers = bent;

        self.gestures.finger_touching_thumb = if thumb_bent {
            if index_bent {
                Some(HandPart::Index)
            } else if middle_bent {
                Some(HandPart::Middle)
            } else if ring_bent {
                Some(HandPart::Ring)
            } else if little_bent {
                Some(HandPart::Little)
            } else {
                None
            }
        } else {
            None
        };
    }
}

/// Copies a vector of hand parts element by element.
fn copy_parts(src: &Vec<HandPart>) -> (r: Vec<HandPart>)
    ensures
        r@ == src@,
{
    let mut out: Vec<HandPart> = Vec::new();
    let mut i: usize = 0;
    while i < src.len()
        invariant
            i <= src@.len(),
            out@ == src@.subrange(0, i as int),
        decreases src@.len() - i,
    {
        out.push(src[i]);
        proof {
            assert(out@ =~= src@.subrange(0, i + 1 as int));
        }
        i = i + 1;
    }
    proof {
        assert(out@ =~= src@);
    }
    out
}

/// Every coordinate word of the group is the zero bit pattern (+0.0).
pub open spec fn coords_zero(c: Seq<[u32; 3]>) -> bool {
    forall|i: int, j: int| 0 <= i < c.len() && 0 <= j < 3 ==> c[i]@[j] == 0
}

/// Every word of the triple is the zero bit pattern (+0.0).
pub open spec fn triple_zero(e: [u32; 3]) -> bool {
    forall|j: int| 0 <= j < 3 ==> e@[j] == 0
}

/// The all-zero pose record that the hand state starts from.
pub open spec fn model_zero(m: HandModel) -> bool {
    &&& coords_zero(m.palm_coords@)
    &&& coords_zero(m.thumb_coords@)
    &&& coords_zero(m.index_coords@)
    &&& coords_zero(m.middle_coords@)
    &&& coords_zero(m.ring_coords@)
    &&& coords_zero(m.little_coords@)
    &&& triple_zero(m.palm_euler)
    &&& triple_zero(m.thumb_euler)
    &&& triple_zero(m.index_euler)
    &&& triple_zero(m.middle_euler)
    &&& triple_zero(m.ring_euler)
    &&& triple_zero(m.little_euler)
}

/// An angle of +0.0 lies inside the straight band, so nothing is bent and
/// nothing touches the thumb in an all-zero pose.
pub proof fn lemma_zero_model_gestures(m: HandModel)
    requires
        model_zero(m),
    ensures
        spec_bent_fingers(m) == Seq::<HandPart>::empty(),
        spec_thumb_contact(m) is None,
{
    assert(crate::fbits::f32_bits_le(0xBF86_0A92u32, 0u32)
        && crate::fbits::f32_bits_le(0u32, 0x3F86_0A92u32)) by (bit_vector);
}

impl Default for HandModel {
    /// The all-zero pose record.
    fn default() -> (r: HandModel)
        ensures
            model_zero(r),
    {
        HandModel {
            palm_coords: [[0, 0, 0]],
            thumb_coords: [[0, 0, 0], [0, 0, 0], [0, 0, 0]],
            index_coords: [[0, 0, 0], [0, 0, 0], [0, 0, 0], [0, 0, 0]],
            middle_coords: [[0, 0, 0], [0, 0, 0], [0, 0, 0], [0, 0, 0]],
            ring_coords: [[0, 0, 0], [0, 0, 0], [0, 0, 0], [0, 0, 0]],
            little_coords: [[0, 0, 0], [0, 0, 0], [0, 0, 0], [0, 0, 0]],
            palm_euler: [0, 0, 0],
            thumb_euler: [0, 0, 0],
            index_euler: [0, 0, 0],
            middle_euler: [0, 0, 0],
            ring_euler: [0, 0, 0],
            little_euler: [0, 0, 0],
        }
    }
}

impl Default for HandGestures {
    /// The startup summary: nothing bent, no contact, zero acceleration.
    fn default() -> (r: HandGestures)
        ensures
            r.bent_fingers@ == Seq::<HandPart>::empty(),
            r.finger_touching_thumb is None,
            triple_zero(r.acceleration),
    {
        HandGestures {
            finger_touching_thumb: None,
            bent_fingers: Vec::new(),
            acceleration: [0, 0, 0],
        }
    }
}

impl Default for Hand {
    /// The startup state: an all-zero pose together with the summary derived
    /// from it, so the state is well-formed from the first instant.
    fn default() -> (r: Hand)
        ensures
            r.wf(),
            model_zero(r.spec_model()),
            r.spec_gestures().bent_fingers@ == Seq::<HandPart>::empty(),
            r.spec_gestures().finger_touching_thumb is None,
            triple_zero(r.spec_gestures().acceleration),
    {
        let h = Hand { model: HandModel::default(), gestures: HandGestures::default() };
        proof {
            lemma_zero_model_gestures(h.model);
        }
        h
    }
}

/// The decode contract pins the record: two pose records that both match the
/// same frame are the same record. Together with the exact contracts of
/// [`HandModel::from_raw_data`], [`Hand::update_model`] and
/// [`Hand::snapshot`], this is the round trip: decoding a valid frame,
/// applying it and reading a snapshot yields exactly the decoded values.
pub proof fn lemma_decode_determined(raw: Seq<u8>, m1: HandModel, m2: HandModel)
    requires
        decode_ok(raw, m1),
        decode_ok(raw, m2),
    ensures
        m1 == m2,
{
    broadcast use vstd::array::group_array_axioms;

    assert forall|i: int| 0 <= i < 1 implies m1.palm_coords@[i] == m2.palm_coords@[i] by {
        assert(m1.palm_coords@[i]@ =~= m2.palm_coords@[i]@);
    }
    assert(m1.palm_coords@ =~= m2.palm_coords@);
    assert forall|i: int| 0 <= i < 3 implies m1.thumb_coords@[i] == m2.thumb_coords@[i] by {
        assert(m1.thumb_coords@[i]@ =~= m2.thumb_coords@[i]@);
    }
    assert(m1.thumb_coords@ =~= m2.thumb_coords@);
    assert forall|i: int| 0 <= i < 4 implies m1.index_coords@[i] == m2.index_coords@[i] by {
        assert(m1.index_coords@[i]@ =~= m2.index_coords@[i]@);
    }
    assert(m1.index_coords@ =~= m2.index_coords@);
    assert forall|i: int| 0 <= i < 4 implies m1.middle_coords@[i] == m2.middle_coords@[i] by {
        assert(m1.middle_coords@[i]@ =~= m2.middle_coords@[i]@);
    }
    assert(m1.middle_coords@ =~= m2.middle_coords@);
    assert forall|i: int| 0 <= i < 4 implies m1.ring_coords@[i] == m2.ring_coords@[i] by {
        assert(m1.ring_coords@[i]@ =~= m2.ring_coords@[i]@);
    }
    assert(m1.ring_coords@ =~= m2.ring_coords@);
    assert forall|i: int| 0 <= i < 4 implies m1.little_coords@[i] == m2.little_coords@[i] by {
        assert(m1.little_coords@[i]@ =~= m2.little_coords@[i]@);
    }
    assert(m1.little_coords@ =~= m2.little_coords@);
    assert(m1.palm_euler@ =~= m2.palm_euler@);
    assert(m1.thumb_euler@ =~= m2.thumb_euler@);
    assert(m1.index_euler@ =~= m2.index_euler@);
    assert(m1.middle_euler@ =~= m2.middle_euler@);
    assert(m1.ring_euler@ =~= m2.ring_euler@);
    assert(m1.little_euler@ =~= m2.little_euler@);
    assert(m1 =~= m2);
}

/// Determinism: the gesture summary is a pure function of the pose record.
/// Any two well-formed hand states holding the same pose carry the same
/// bent-finger set and the same thumb contact, so applying the same frame
/// twice yields identical summaries both times.
pub proof fn lemma_gestures_deterministic(h1: Hand, h2: Hand)
    requires
        h1.wf(),
        h2.wf(),
        h1.spec_model() == h2.spec_model(),
    ensures
        h1.spec_gestures().bent_fingers@ == h2.spec_gestures().bent_fingers@,
        h1.spec_gestures().finger_touching_thumb == h2.spec_gestures().finger_touching_thumb,
{
}

/// Membership in the bent-finger set is exactly the bent classification: the
/// set holds a finger if and only if that finger's Euler Y-angle lies outside
/// the straight band, and it never holds the palm.
pub proof fn lemma_bent_set_membership(m: HandModel, part: HandPart)
    ensures
        part != HandPart::Palm ==> (spec_bent_fingers(m).contains(part) <==> spec_is_bent(
            m,
            part,
        )),
        !spec_bent_fingers(m).contains(HandPart::Palm),
{
    let s = spec_bent_fingers(m);
    let s0: Seq<HandPart> = Seq::empty();
    let s1: Seq<HandPart> = if spec_is_bent(m, HandPart::Thumb) {
        s0.push(HandPart::Thumb)
    } else {
        s0
    };
    let s2: Seq<HandPart> = if spec_is_bent(m, HandPart::Index) {
        s1.push(HandPart::Index)
    } else {
        s1
    };
    let s3: Seq<HandPart> = if spec_is_bent(m, HandPart::Middle) {
        s2.push(HandPart::Middle)
    } else {
        s2
    };
    let s4: Seq<HandPart> = if spec_is_bent(m, HandPart::Ring) {
        s3.push(HandPart::Ring)
    } else {
        s3
    };
    assert forall|p: HandPart| s.contains(p) implies p != HandPart::Palm && spec_is_bent(
        m,
        p,
    ) by {
        let i: int = choose|i: int| 0 <= i < s.len() && s[i] == p;
    }
    if part != HandPart::Palm && spec_is_bent(m, part) {
        match part {
            HandPart::Palm => {},
            HandPart::Thumb => {
                assert(s[0] == HandPart::Thumb);
                assert(s.contains(HandPart::Thumb));
            },
            HandPart::Index => {
                let k: int = s1.len() as int;
                assert(s[k] == HandPart::Index);
                assert(s.contains(HandPart::Index));
            },
            HandPart::Middle => {
                let k: int = s2.len() as int;
                assert(s[k] == HandPart::Middle);
                assert(s.contains(HandPart::Middle));
            },
            HandPart::Ring => {
                let k: int = s3.len() as int;
                assert(s[k] == HandPart::Ring);
                assert(s.contains(HandPart::Ring));
            },
            HandPart::Little => {
                let k: int = s4.len() as int;
                assert(s[k] == HandPart::Little);
                assert(s.contains(HandPart::Little));
            },
        }
    }
}

/// A finger whose Euler Y-angle is exactly the threshold (+pi/3 or -pi/3,
/// as a bit pattern) is classified as not bent: the straight band is closed.
pub proof fn lemma_boundary_angle_not_bent(m: HandModel, part: HandPart)
    requires
        spec_euler(m, part)@[1] == crate::fbits::FINGER_BENDING_MAX_THRESHOLD_BITS
            || spec_euler(m, part)@[1] == crate::fbits::FINGER_BENDING_MIN_THRESHOLD_BITS,
    ensures
        !spec_is_bent(m, part),
{
    crate::fbits::lemma_bend_threshold_boundary();
}

/// A finger whose Euler Y-angle is the very next representable float past
/// either end of the band is classified as bent.
pub proof fn lemma_past_boundary_angle_bent(m: HandModel, part: HandPart)
    requires
        spec_euler(m, part)@[1] == 0x3F86_0A93u32 || spec_euler(m, part)@[1] == 0xBF86_0A93u32,
    ensures
        spec_is_bent(m, part),
{
    crate::fbits::lemma_bend_threshold_boundary();
}

/// Thumb-contact priority: when the thumb and the index finger are both
/// bent, the contact is the index finger — whatever the other fingers do.
pub proof fn lemma_thumb_contact_priority(m: HandModel)
    requires
        spec_is_bent(m, HandPart::Thumb),
        spec_is_bent(m, HandPart::Index),
    ensures
        spec_thumb_contact(m) == Some(HandPart::Index),
{
}

/// Thumb-contact absence: a straight thumb never has contact, whatever the
/// other fingers do; a bent thumb with all four fingers straight has none
/// either.
pub proof fn lemma_thumb_contact_absent(m: HandModel)
    ensures
        !spec_is_bent(m, HandPart::Thumb) ==> spec_thumb_contact(m) is None,
        (spec_is_bent(m, HandPart::Thumb) && !spec_is_bent(m, HandPart::Index) && !spec_is_bent(
            m,
            HandPart::Middle,
        ) && !spec_is_bent(m, HandPart::Ring) && !spec_is_bent(m, HandPart::Little))
            ==> spec_thumb_contact(m) is None,
{
}

/// The contact, when present, is itself a bent finger and the thumb is bent:
/// contact never names a straight finger.
pub proof fn lemma_contact_is_bent(m: HandModel)
    ensures
        spec_thumb_contact(m) is Some ==> spec_is_bent(m, HandPart::Thumb) && spec_is_bent(
            m,
            spec_thumb_contact(m)->0,
        ),
{
}

/// Snapshot consistency: in a well-formed state the summary half of the pair
/// is exactly the one derived from the pose half. Since both constructors
/// establish well-formedness and every update re-establishes it before it
/// returns, no read can observe a pose paired with a summary that came from
/// a different update.
pub proof fn lemma_snapshot_consistent(h: Hand)
    requires
        h.wf(),
    ensures
        h.spec_gestures().bent_fingers@ == spec_bent_fingers(h.spec_model()),
        h.spec_gestures().finger_touching_thumb == spec_thumb_contact(h.spec_model()),
{
}

} // verus!
