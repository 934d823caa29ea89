//! Pieces of the upload dialog and the in-game browser that need no browser.

use vstd::prelude::*;
use crate::slop::app::str_eq;
use crate::slop::place_request::{push_i32, spec_i32_text};

verus! {

/// Arguments of a call from the dialog's page script.
pub struct InvokeArgs {
    pub token: String,
    pub title: String,
    pub do_post: bool,
    pub post_setting: i16,
}

/// The user folders that the dialog can open.
pub enum UserFolder {
    Video,
    Picture,
}

/// Opens one of the user's folders in the shell: nothing is
/// opened without a shell.
pub fn open_user_folder(which: UserFolder) {
}

/// The dispatch id of a method of the dialog's external object.
pub open spec fn spec_dispatch_id(name: Seq<char>) -> Option<i32> {
    if name == "CheckAppHost"@ {
        Some(0)
    } else if name == "AppHostOpenVideoFolder"@ {
        Some(1)
    } else if name == "AppHostUploadVideo"@ {
        Some(2)
    } else if name == "AppHostOpenPicFolder"@ {
        Some(3)
    } else if name == "AppHostPostImage"@ {
        Some(4)
    } else {
        None
    }
}

/// The dispatch ids of the external object: the five methods that page
/// scripts may call, numbered from 0; any other name is unknown.
pub fn dispatch_id(name: &str) -> (r: Option<i32>)
    ensures
        r == spec_dispatch_id(name@),
{
    if str_eq(name, "CheckAppHost") {
        Some(0)
    } else if str_eq(name, "AppHostOpenVideoFolder") {
        Some(1)
    } else if str_eq(name, "AppHostUploadVideo") {
        Some(2)
    } else if str_eq(name, "AppHostOpenPicFolder") {
        Some(3)
    } else if str_eq(name, "AppHostPostImage") {
        Some(4)
    } else {
        None
    }
}

/// What a call of the external object does.
#[derive(Debug, Clone, Copy, PartialEq, Eq, Structural)]
pub enum InvokeAction {
    OpenVideoFolder,
    UploadVideo,
    OpenPictureFolder,
    NeverPostImages,
    Nothing,
}

/// The action for a dispatch id.
pub open spec fn spec_invoke_action(dispid: i32) -> InvokeAction {
    if dispid == 1 {
        InvokeAction::OpenVideoFolder
    } else if dispid == 2 {
        InvokeAction::UploadVideo
    } else if dispid == 3 {
        InvokeAction::OpenPictureFolder
    } else if dispid == 4 {
        InvokeAction::NeverPostImages
    } else {
        InvokeAction::Nothing
    }
}

/// The action for a method call of the external object, by dispatch id.
pub fn invoke_action(dispid: i32) -> (r: InvokeAction)
    ensures
        r == spec_invoke_action(dispid),
{
    match dispid {
        1 => InvokeAction::OpenVideoFolder,
        2 => InvokeAction::UploadVideo,
        3 => InvokeAction::OpenPictureFolder,
        4 => InvokeAction::NeverPostImages,
        _ => InvokeAction::Nothing,
    }
}

/// What a video upload is sent with: its title, the account token it is
/// uploaded under, the text that points viewers at the game, and whether
/// that text came from the site.
pub struct VideoUpload {
    pub title: String,
    pub token: String,
    pub seo_info: String,
    pub site_seo: bool,
}

/// The title of a video whose uploader gave none.
pub open spec fn default_video_title() -> Seq<char> {
    "ROBLOX ROCKS!"@
}

/// The text that invites viewers to the place `place_id`.
pub open spec fn spec_place_visit_text(place_id: i32) -> Seq<char> {
    "To play this game, please visit: http://www.roblox.com/item.aspx?id="@ + spec_i32_text(
        place_id,
    ) + "&amp;rbx_source=youtube&amp;rbx_medium=uservideo"@
}

/// What an upload is sent with, from the token, the title the user gave,
/// the site's text for the place and the place's id: an empty title becomes
/// the default; without site text, a positive place id gets an invitation to
/// that place; otherwise the site's text is used as it is.
pub fn video_upload(token: String, title: String, seo: String, place_id: i32) -> (r: VideoUpload)
    ensures
        r.token@ == token@,
        r.title@ == (if title@.len() == 0 {
            default_video_title()
        } else {
            title@
        }),
        (seo@.len() == 0 && place_id > 0) ==> r.seo_info@ == spec_place_visit_text(place_id)
            && !r.site_seo,
        !(seo@.len() == 0 && place_id > 0) ==> r.seo_info@ == seo@ && r.site_seo,
{
    let title = if title.unicode_len() == 0 {
        "ROBLOX ROCKS!".to_owned()
    } else {
        title
    };
    if seo.unicode_len() == 0 && place_id > 0 {
        let mut text = "To play this game, please visit: http://www.roblox.com/item.aspx?id=".to_owned();
        push_i32(&mut text, place_id);
        text.append("&amp;rbx_source=youtube&amp;rbx_medium=uservideo");
        proof {
            assert(text@ =~= spec_place_visit_text(place_id));
        }
        VideoUpload { title, token, seo_info: text, site_seo: false }
    } else {
        VideoUpload { title, token, seo_info: seo, site_seo: true }
    }
}

/// The upload dialog's state: the recorded file, the upload last started,
/// and whether the page gave a callback that enables or disables its upload
/// button.
pub struct UploadDialog {
    pub file_name: String,
    pub upload: Option<VideoUpload>,
    pub has_enable_upload: bool,
}

impl UploadDialog {
    /// A dialog with no file and no upload yet.
    pub fn new(has_enable_upload: bool) -> (r: UploadDialog)
        ensures
            r.file_name@ == Seq::<char>::empty(),
            r.upload is None,
            r.has_enable_upload == has_enable_upload,
    {
        UploadDialog { file_name: String::new(), upload: None, has_enable_upload }
    }

    /// Sets the file to upload.
    pub fn set_file_name(&mut self, file: String)
        ensures
            final(self).file_name@ == file@,
            final(self).upload == old(self).upload,
            final(self).has_enable_upload == old(self).has_enable_upload,
    {
        self.file_name = file;
    }

    /// Starts an upload: keeps what it is sent with, and returns the value
    /// that the enable-upload callback is to be called with, once, before the
    /// upload runs (`false`: the button is disabled while uploading), or
    /// `None` where the page gave no callback.
    pub fn do_upload_video(&mut self, token: String, title: String, seo: String, place_id: i32) -> (r: Option<bool>)
        ensures
            r == (if old(self).has_enable_upload { Some(false) } else { None::<bool> }),
            final(self).upload matches Some(u) && {
                &&& u.token@ == token@
                &&& u.title@ == (if title@.len() == 0 { default_video_title() } else { title@ })
                &&& (seo@.len() == 0 && place_id > 0) ==> u.seo_info@ == spec_place_visit_text(place_id) && !u.site_seo
                &&& !(seo@.len() == 0 && place_id > 0) ==> u.seo_info@ == seo@ && u.site_seo
            },
            final(self).file_name@ == old(self).file_name@,
            final(self).has_enable_upload == old(self).has_enable_upload,
    {
        let u = video_upload(token, title, seo, place_id);
        self.upload = Some(u);
        if self.has_enable_upload {
            Some(false)
        } else {
            None
        }
    }
}

/// The host flags of the in-game browser: no
/// help menu, form autocomplete, themes, no inactive scripts, local machine
/// access checks, no untrusted protocols, no 3D border.
pub const ROBLOX_BROWSER_FLAGS: u32 = 0x0000_0001 | 0x0001_0000 | 0x0004_0000 | 0x0000_0010
    | 0x0010_0000 | 0x0040_0000 | 0x0000_0004;

/// Whether the in-game browser dialog is open.
pub struct WebViewState {
    pub dialog_active: bool,
}

impl WebViewState {
    /// The dialog opened.
    pub fn on_init_dialog(&mut self) -> (r: bool)
        ensures
            r,
            final(self).dialog_active,
    {
        self.dialog_active = true;
        true
    }

    /// Closes an open dialog; returns whether the
    /// GUI service is to hear that the URL window closed, which is only for
    /// a dialog that was open.
    pub fn close_dialog(&mut self) -> (r: bool)
        ensures
            r == old(self).dialog_active,
            !final(self).dialog_active,
    {
        if !self.dialog_active {
            return false;
        }
        self.dialog_active = false;
        true
    }
}

/// The methods that the page scripts may call, by name and dispatch id:
/// `CheckAppHost` 0, `AppHostOpenVideoFolder` 1, `AppHostUploadVideo` 2,
/// `AppHostOpenPicFolder` 3, `AppHostPostImage` 4; a name differing only in
/// case is unknown.
pub proof fn lemma_dispatch_names()
    ensures
        spec_dispatch_id("CheckAppHost"@) == Some(0i32),
        spec_dispatch_id("AppHostOpenVideoFolder"@) == Some(1i32),
        spec_dispatch_id("AppHostUploadVideo"@) == Some(2i32),
        spec_dispatch_id("AppHostOpenPicFolder"@) == Some(3i32),
        spec_dispatch_id("AppHostPostImage"@) == Some(4i32),
        spec_dispatch_id("apphostpostimage"@) is None,
{
    reveal_strlit("CheckAppHost");
    reveal_strlit("AppHostOpenVideoFolder");
    reveal_strlit("AppHostUploadVideo");
    reveal_strlit("AppHostOpenPicFolder");
    reveal_strlit("AppHostPostImage");
    reveal_strlit("apphostpostimage");
    assert("CheckAppHost"@.len() == 12);
    assert("AppHostOpenVideoFolder"@.len() == 22);
    assert("AppHostUploadVideo"@.len() == 18);
    assert("AppHostOpenPicFolder"@.len() == 20);
    assert("AppHostPostImage"@.len() == 16 && "AppHostPostImage"@[0] == 'A');
    assert("apphostpostimage"@.len() == 16 && "apphostpostimage"@[0] == 'a');
}

/// An invoked method acts by its dispatch id: 1 opens the video folder, 2
/// uploads the video, 3 opens the picture folder, 4 turns image posting
/// off, and any other id does nothing.
pub proof fn lemma_invoke_ids(dispid: i32)
    ensures
        dispid == 1 ==> spec_invoke_action(dispid) == InvokeAction::OpenVideoFolder,
        dispid == 2 ==> spec_invoke_action(dispid) == InvokeAction::UploadVideo,
        dispid == 3 ==> spec_invoke_action(dispid) == InvokeAction::OpenPictureFolder,
        dispid == 4 ==> spec_invoke_action(dispid) == InvokeAction::NeverPostImages,
        !(1 <= dispid <= 4) ==> spec_invoke_action(dispid) == InvokeAction::Nothing,
{
}

} // verus!
