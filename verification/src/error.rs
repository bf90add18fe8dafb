use vstd::prelude::*;

verus! {

/// Why a filesystem location could not be determined. Each variant stands
/// for one path category of the application; `message` gives the
/// human-readable text surfaced to the user.
#[derive(Clone, Copy, Debug, PartialEq, Eq, Structural)]
pub enum DirError {
    /// No candidate for the configuration directory resolved.
    ConfigDirNotFound,
    /// No candidate for the data directory resolved.
    DataDirNotFound,
    /// The user's home directory could not be determined.
    HomeDirNotFound,
    /// The legacy home directory could not be determined.
    OldHomeDirNotFound,
    /// The directory holding the application executable could not be determined.
    InstallDirNotFound,
    /// The OS-provided cache base directory could not be determined.
    CacheDirNotFound,
    /// The application resource directory could not be determined.
    ResourceDirNotFound,
    /// A path could not be rendered as UTF-8 text.
    InvalidPath,
}

impl DirError {
    /// The message text of this error.
    pub open spec fn spec_message(self) -> Seq<char> {
        match self {
            DirError::ConfigDirNotFound => "failed to get the app config dir"@,
            DirError::DataDirNotFound => "failed to get the app data dir"@,
            DirError::HomeDirNotFound => "failed to get the app home dir"@,
            DirError::OldHomeDirNotFound => "failed to check old app home dir"@,
            DirError::InstallDirNotFound => "failed to get the app install dir"@,
            DirError::CacheDirNotFound => "failed to get the cache dir"@,
            DirError::ResourceDirNotFound => "failed to get the resource dir"@,
            DirError::InvalidPath => "failed to get path"@,
        }
    }

    /// Human-readable message naming the path category that failed.
    pub fn message(&self) -> (r: String)
        ensures
            r@ == self.spec_message(),
    {
        match self {
            DirError::ConfigDirNotFound => "failed to get the app config dir".to_owned(),
            DirError::DataDirNotFound => "failed to get the app data dir".to_owned(),
            DirError::HomeDirNotFound => "failed to get the app home dir".to_owned(),
            DirError::OldHomeDirNotFound => "failed to check old app home dir".to_owned(),
            DirError::InstallDirNotFound => "failed to get the app install dir".to_owned(),
            DirError::CacheDirNotFound => "failed to get the cache dir".to_owned(),
            DirError::ResourceDirNotFound => "failed to get the resource dir".to_owned(),
            DirError::InvalidPath => "failed to get path".to_owned(),
        }
    }
}

} // verus!
