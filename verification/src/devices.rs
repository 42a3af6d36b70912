//! Choice and presentation of audio input devices.
//!
//! The device query itself is the audio subsystem's; this module takes
//! the enumerated device names and the system default's name as plain
//! strings and makes the decisions: how the list is presented to the
//! user, which device a session uses, and which input configuration is
//! acceptable.

use vstd::prelude::*;

verus! {

/// The enumerated names other than the default, in enumeration order.
pub open spec fn others_kept(names: Seq<Seq<char>>, dflt: Seq<char>) -> Seq<Seq<char>>
    decreases names.len(),
{
    if names.len() == 0 {
        Seq::empty()
    } else {
        let rest = others_kept(names.drop_last(), dflt);
        if names.last() != dflt {
            rest.push(names.last())
        } else {
            rest
        }
    }
}

/// The user-facing device list.  The audio subsystem queries the
/// device names and the system default's name; this orders them for
/// presentation: the default first, and not repeated later in the
/// list; every other name kept, in enumeration order.
pub fn enumerate_audio_devices(default_name: String, names: Vec<String>) -> (r: Vec<String>)
    ensures
        r.deep_view() == seq![default_name@] + others_kept(names.deep_view(), default_name@),
{
    let ghost dname = default_name@;
    let mut out: Vec<String> = Vec::new();
    out.push(default_name.clone());
    proof {
        assert(names.deep_view().take(0) =~= Seq::<Seq<char>>::empty());
        assert(out.deep_view() =~= seq![dname] + others_kept(names.deep_view().take(0), dname));
    }
    let mut k: usize = 0;
    while k < names.len()
        invariant
            k <= names@.len(),
            names.deep_view().len() == names@.len(),
            default_name@ == dname,
            out.deep_view() == seq![dname] + others_kept(names.deep_view().take(k as int), dname),
        decreases names@.len() - k,
    {
        let ghost before = out.deep_view();
        let keep = !(names[k] == default_name);
        if keep {
            out.push(names[k].clone());
        }
        proof {
            let taken = names.deep_view().take(k as int);
            let taken1 = names.deep_view().take(k + 1);
            assert(taken1.drop_last() =~= taken);
            assert(taken1.last() == names@[k as int]@);
            if keep {
                assert(out.deep_view() =~= before.push(names@[k as int]@));
            }
            assert(out.deep_view() =~= seq![dname] + others_kept(taken1, dname));
        }
        k = k + 1;
    }
    proof {
        assert(names.deep_view().take(names@.len() as int) =~= names.deep_view());
    }
    out
}

/// The index of the first enumerated device whose name is the wanted
/// one, if any: how a session resolves a user-chosen device name.
pub fn find_device_index(names: &Vec<String>, wanted: &String) -> (r: Option<usize>)
    ensures
        r matches Some(i) ==> i < names@.len() && names@[i as int]@ == wanted@ && forall|j: int|
            0 <= j < i ==> names@[j]@ != wanted@,
        r is None ==> forall|j: int| 0 <= j < names@.len() ==> names@[j]@ != wanted@,
{
    let mut k: usize = 0;
    while k < names.len()
        invariant
            k <= names@.len(),
            forall|j: int| 0 <= j < k ==> names@[j]@ != wanted@,
        decreases names@.len() - k,
    {
        if names[k] == *wanted {
            return Option::Some(k);
        }
        k = k + 1;
    }
    Option::None
}

/// The raw sample formats an input configuration can deliver.  Only the
/// first four have a matching raw input format on the encoder side.
#[derive(Clone, Copy, Debug, PartialEq, Eq, Structural)]
pub enum SampleKind {
    SignedByte,
    SignedShort,
    SignedInt,
    FloatSample,
    Unsupported,
}

/// The encoder's name for a raw sample format, if it has one.
pub fn sample_format_name(kind: SampleKind) -> (r: Option<&'static str>)
    ensures
        kind == SampleKind::SignedByte ==> (r matches Some(n) && n@ == "s8"@),
        kind == SampleKind::SignedShort ==> (r matches Some(n) && n@ == "s16le"@),
        kind == SampleKind::SignedInt ==> (r matches Some(n) && n@ == "s32le"@),
        kind == SampleKind::FloatSample ==> (r matches Some(n) && n@ == "f32le"@),
        kind == SampleKind::Unsupported ==> r is None,
{
    match kind {
        SampleKind::SignedByte => Option::Some("s8"),
        SampleKind::SignedShort => Option::Some("s16le"),
        SampleKind::SignedInt => Option::Some("s32le"),
        SampleKind::FloatSample => Option::Some("f32le"),
        SampleKind::Unsupported => Option::None,
    }
}

/// Pick the input configuration a session records with: the first one
/// whose sample format the encoder understands, or the first one at all
/// when none does, or nothing when the device offers none.
pub fn select_input_config(kinds: &Vec<SampleKind>) -> (r: Option<usize>)
    ensures
        kinds@.len() == 0 <==> r is None,
        r matches Some(i) ==> i < kinds@.len(),
        (exists|j: int| 0 <= j < kinds@.len() && kinds@[j] != SampleKind::Unsupported) ==> (
        r matches Some(i) && kinds@[i as int] != SampleKind::Unsupported && forall|j: int|
            0 <= j < i ==> kinds@[j] == SampleKind::Unsupported),
        (forall|j: int| 0 <= j < kinds@.len() ==> kinds@[j] == SampleKind::Unsupported)
            && kinds@.len() > 0 ==> r == Some(0usize),
{
    let mut k: usize = 0;
    while k < kinds.len()
        invariant
            k <= kinds@.len(),
            forall|j: int| 0 <= j < k ==> kinds@[j] == SampleKind::Unsupported,
        decreases kinds@.len() - k,
    {
        if kinds[k] != SampleKind::Unsupported {
            return Option::Some(k);
        }
        k = k + 1;
    }
    if kinds.len() > 0 {
        Option::Some(0)
    } else {
        Option::None
    }
}

} // verus!
