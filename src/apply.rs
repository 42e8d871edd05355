use vstd::prelude::*;
use crate::error::WallpaperError;
use crate::select::{is_image_path_of, select_wallpaper, selected_from, Entry};

verus! {

/// How many settings are updated for one wallpaper.
pub const TARGET_COUNT: usize = 3;

/// The (schema, key) pair of setting `k`, in the order they are applied.
pub open spec fn target(k: int) -> (Seq<char>, Seq<char>) {
    if k == 0 {
        ("org.gnome.desktop.background"@, "picture-uri"@)
    } else if k == 1 {
        ("org.gnome.desktop.background"@, "picture-uri-dark"@)
    } else {
        ("org.gnome.desktop.screensaver"@, "picture-uri"@)
    }
}

/// The file URI of a path.
pub open spec fn file_uri(file: Seq<char>) -> Seq<char> {
    "file://"@ + file
}

/// The arguments that point setting `k` at `file`.
pub open spec fn settings_args(k: int, file: Seq<char>) -> Seq<Seq<char>> {
    seq!["set"@, target(k).0, target(k).1, file_uri(file)]
}

/// The argument lists still to run from setting `k` on, when every run starts.
pub open spec fn planned_commands(k: nat, file: Seq<char>) -> Seq<Seq<Seq<char>>>
    decreases TARGET_COUNT - k,
{
    if k >= TARGET_COUNT {
        Seq::empty()
    } else {
        seq![settings_args(k as int, file)] + planned_commands(k + 1, file)
    }
}

/// One run of the settings utility.
pub struct SettingsCommand {
    /// The executable, looked up on the search path.
    pub program: String,
    /// Its arguments.
    pub args: Vec<String>,
}

/// Applying a wallpaper runs the settings utility exactly three times, once per
/// fixed (schema, key) pair in this order, each time with `file://` followed by
/// the path as its last argument.
pub proof fn lemma_apply_plan(file: Seq<char>)
    ensures
        planned_commands(0, file) == seq![
            seq!["set"@, "org.gnome.desktop.background"@, "picture-uri"@, "file://"@ + file],
            seq!["set"@, "org.gnome.desktop.background"@, "picture-uri-dark"@, "file://"@ + file],
            seq!["set"@, "org.gnome.desktop.screensaver"@, "picture-uri"@, "file://"@ + file],
        ],
        forall|k: int| 0 <= k < TARGET_COUNT ==> #[trigger] settings_args(k, file) == planned_commands(0, file)[k],
{
    reveal_with_fuel(planned_commands, 4);
    assert(planned_commands(3, file) =~= Seq::empty());
    assert(planned_commands(2, file) =~= seq![settings_args(2, file)]);
    assert(planned_commands(1, file) =~= seq![settings_args(1, file), settings_args(2, file)]);
    assert(planned_commands(0, file) =~= seq![
        settings_args(0, file),
        settings_args(1, file),
        settings_args(2, file),
    ]);
}

/// Steps through the settings updates for one chosen image: hands out each
/// command in turn and takes back whether it could be started.
pub struct Applier {
    file_name: String,
    applied: usize,
}

impl View for Applier {
    type V = (Seq<char>, nat);

    /// The image path, and how many settings have been updated so far.
    closed spec fn view(&self) -> (Seq<char>, nat) {
        (self.file_name@, self.applied as nat)
    }
}

impl Applier {
    #[verifier::type_invariant]
    spec fn inv(&self) -> bool {
        self.applied <= TARGET_COUNT
    }

    /// Starts applying `file_name`, with no setting updated yet.
    pub fn new(file_name: String) -> (r: Applier)
        ensures
            r@ == (file_name@, 0nat),
    {
        Applier { file_name, applied: 0 }
    }

    /// Whether every setting has been updated.
    pub fn is_done(&self) -> (r: bool)
        ensures
            r == (self@.1 >= TARGET_COUNT),
    {
        self.applied >= TARGET_COUNT
    }

    /// The next command to run, or `None` once every setting is updated.
    pub fn next_command(&self) -> (r: Option<SettingsCommand>)
        ensures
            self@.1 <= TARGET_COUNT,
            self@.1 == TARGET_COUNT ==> r is None,
            self@.1 < TARGET_COUNT ==> (r matches Some(c) && c.program@ == "gsettings"@
                && c.args.deep_view() == settings_args(self@.1 as int, self@.0)),
    {
        proof {
            use_type_invariant(self);
        }
        if self.applied >= TARGET_COUNT {
            return None;
        }
        let (schema, key) = if self.applied == 0 {
            ("org.gnome.desktop.background", "picture-uri")
        } else if self.applied == 1 {
            ("org.gnome.desktop.background", "picture-uri-dark")
        } else {
            ("org.gnome.desktop.screensaver", "picture-uri")
        };
        let uri = String::from_str("file://").concat(self.file_name.as_str());
        let mut args: Vec<String> = Vec::new();
        args.push(String::from_str("set"));
        args.push(String::from_str(schema));
        args.push(String::from_str(key));
        args.push(uri);
        assert(args.deep_view() =~= settings_args(self@.1 as int, self@.0));
        Some(SettingsCommand { program: String::from_str("gsettings"), args })
    }

    /// Takes back whether the last command handed out could be started: on
    /// success the next setting is due; a failure to start ends the change
    /// with `CommandError`, leaving the earlier settings as they were updated.
    pub fn record(&mut self, started: Result<(), std::io::Error>) -> (r: Result<(), WallpaperError>)
        requires
            old(self)@.1 < TARGET_COUNT,
        ensures
            match started {
                Ok(_) => r is Ok && final(self)@ == (old(self)@.0, old(self)@.1 + 1),
                Err(e) => r == Err::<(), WallpaperError>(WallpaperError::CommandError(e))
                    && final(self)@ == old(self)@,
            },
    {
        match started {
            Ok(_) => {
                self.applied = self.applied + 1;
                Ok(())
            },
            Err(e) => Err(WallpaperError::CommandError(e)),
        }
    }

    /// The path of the image being applied.
    pub fn file_name(&self) -> (r: String)
        ensures
            r@ == self@.0,
    {
        self.file_name.clone()
    }
}

/// Chooses a random image out of a directory listing (`None` for a directory
/// that could not be listed) and starts applying it.
pub fn change_wallpaper(listing: Option<Vec<Entry>>) -> (r: Result<Applier, WallpaperError>)
    ensures
        listing is None <==> r matches Err(WallpaperError::DirectoryNotFound),
        listing matches Some(es) ==> match r {
            Ok(a) => a@.1 == 0 && is_image_path_of(es@, a@.0),
            Err(e) => selected_from(es@, Err(e)),
        },
{
    let file_name = select_wallpaper(listing)?;
    Ok(Applier::new(file_name))
}

} // verus!
