//! The parameter set a recording session is started with.

use vstd::prelude::*;

verus! {

/// Options handed to `start`: identifiers, storage destination and the
/// chosen capture parameters.  All fields are plain strings; validation
/// happens when a session starts.
#[derive(Clone, Debug)]
pub struct RecordingOptions {
    pub user_id: String,
    pub video_id: String,
    pub screen_index: String,
    pub video_index: String,
    pub audio_name: String,
    pub aws_region: String,
    pub aws_bucket: String,
    pub framerate: String,
    pub resolution: String,
}

impl RecordingOptions {
    /// An exact copy, field by field.
    pub fn duplicate(&self) -> (r: RecordingOptions)
        ensures
            r == *self,
    {
        RecordingOptions {
            user_id: self.user_id.clone(),
            video_id: self.video_id.clone(),
            screen_index: self.screen_index.clone(),
            video_index: self.video_index.clone(),
            audio_name: self.audio_name.clone(),
            aws_region: self.aws_region.clone(),
            aws_bucket: self.aws_bucket.clone(),
            framerate: self.framerate.clone(),
            resolution: self.resolution.clone(),
        }
    }

    /// The audio device the user asked for: an empty `audio_name` means
    /// "use the system default", a non-empty one names a device.
    pub fn requested_audio_device(&self) -> (r: Option<String>)
        ensures
            self.audio_name@.len() == 0 ==> r is None,
            self.audio_name@.len() > 0 ==> (r matches Some(n) && n@ == self.audio_name@),
    {
        if self.audio_name.as_str().is_empty() {
            Option::None
        } else {
            Option::Some(self.audio_name.clone())
        }
    }
}

} // verus!
