use vstd::prelude::*;

verus! {

/// The file frames are saved to when no path was given.
pub open spec fn default_telemetry_path() -> Seq<char> {
    "telemetry.json"@
}

/// A recording of telemetry frames, switched on and off by the player.
pub struct TelemetryRecorder<F> {
    pub recording: bool,
    pub data: Vec<F>,
    pub file_path: Option<String>,
}

impl<F> Default for TelemetryRecorder<F> {
    fn default() -> (r: Self)
        ensures
            !r.recording,
            r.data@.len() == 0,
            r.file_path is None,
    {
        TelemetryRecorder { recording: false, data: Vec::new(), file_path: None }
    }
}

impl<F> TelemetryRecorder<F> {
    /// Switches recording on or off; switching it on starts a fresh
    /// recording. Returns whether it is now recording.
    pub fn toggle_recording(&mut self) -> (on: bool)
        ensures
            on == !old(self).recording,
            final(self).recording == on,
            on ==> final(self).data@.len() == 0,
            !on ==> final(self).data@ == old(self).data@,
            final(self).file_path == old(self).file_path,
    {
        self.recording = !self.recording;
        if self.recording {
            self.data.clear();
        }
        self.recording
    }

    /// Where a save goes: the chosen path, or "telemetry.json".
    pub fn save_path(&self) -> (p: String)
        ensures
            p@ == match self.file_path {
                Some(path) => path@,
                None => default_telemetry_path(),
            },
    {
        match &self.file_path {
            Some(path) => path.clone(),
            None => {
                proof {
                    reveal_strlit("telemetry.json");
                }
                String::from_str("telemetry.json")
            },
        }
    }
}

} // verus!
