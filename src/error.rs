use vstd::prelude::*;

verus! {

/// The standard I/O error, carried opaquely inside `WallpaperError::CommandError`.
#[verifier::external_type_specification]
#[verifier::external_body]
pub struct ExIoError(std::io::Error);

/// Everything that can stop a wallpaper change.
#[derive(Debug)]
pub enum WallpaperError {
    /// The settings utility could not be started.
    CommandError(std::io::Error),
    /// The directory could not be opened or listed.
    DirectoryNotFound,
    /// The directory holds no JPEG or PNG file.
    ImageNotFound,
    /// The chosen image's path has no text form.
    InvalidPath,
}

impl WallpaperError {
    /// A one-line, human-readable description of the error.
    pub fn message(&self) -> (r: String)
        ensures
            self is DirectoryNotFound ==> r@ == "directory not found"@,
            self is ImageNotFound ==> r@ == "unable to find a JPEG or PNG"@,
            self is InvalidPath ==> r@ == "does not appear to be valid path"@,
            self is CommandError ==> r@.len() >= "error trying to set GNOME setting: "@.len()
                && r@.subrange(0, "error trying to set GNOME setting: "@.len() as int)
                == "error trying to set GNOME setting: "@,
    {
        match self {
            WallpaperError::CommandError(err) => {
                let prefix = String::from_str("error trying to set GNOME setting: ");
                let detail = err.to_string();
                let r = prefix.concat(detail.as_str());
                assert(r@.subrange(0, prefix@.len() as int) =~= prefix@);
                r
            },
            WallpaperError::DirectoryNotFound => String::from_str("directory not found"),
            WallpaperError::ImageNotFound => String::from_str("unable to find a JPEG or PNG"),
            WallpaperError::InvalidPath => String::from_str("does not appear to be valid path"),
        }
    }
}

} // verus!
