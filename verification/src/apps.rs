//! Names derived from the folder of an installed application: its window,
//! its entry address, and its files below the installed-applications root.

use vstd::prelude::*;
use vstd::string::StringExecFns;
use crate::local::{build_under_dist, is_below_root, stays_below_root, under_dist};

verus! {

/// A mini-application as the shell's catalogue lists it.
#[derive(Clone, Debug, PartialEq, Eq)]
pub struct DesktopApp {
    pub id: Option<i32>,
    pub app_id: String,
    pub name: String,
    pub icon: String,
    pub repo: Option<String>,
    pub external_url: Option<String>,
    pub is_installed: bool,
    pub is_favorite: bool,
    pub description: Option<String>,
    pub username: Option<String>,
    pub password: Option<String>,
    pub token: Option<String>,
}

/// Mathematical model of a [`DesktopApp`].
pub struct DesktopAppView {
    pub id: Option<i32>,
    pub app_id: Seq<char>,
    pub name: Seq<char>,
    pub icon: Seq<char>,
    pub repo: Option<Seq<char>>,
    pub external_url: Option<Seq<char>>,
    pub is_installed: bool,
    pub is_favorite: bool,
    pub description: Option<Seq<char>>,
    pub username: Option<Seq<char>>,
    pub password: Option<Seq<char>>,
    pub token: Option<Seq<char>>,
}

impl DeepView for DesktopApp {
    type V = DesktopAppView;

    open spec fn deep_view(&self) -> DesktopAppView {
        DesktopAppView {
            id: self.id,
            app_id: self.app_id@,
            name: self.name@,
            icon: self.icon@,
            repo: self.repo.deep_view(),
            external_url: self.external_url.deep_view(),
            is_installed: self.is_installed,
            is_favorite: self.is_favorite,
            description: self.description.deep_view(),
            username: self.username.deep_view(),
            password: self.password.deep_view(),
            token: self.token.deep_view(),
        }
    }
}

impl View for DesktopApp {
    type V = DesktopAppView;

    open spec fn view(&self) -> DesktopAppView {
        self.deep_view()
    }
}

/// Scheme and host under which hosted applications are served.
pub const APP_ORIGIN: &'static str = "sandra-app://localhost/";

/// Label of the window that shows the application in `folder`.
pub open spec fn window_label(folder: Seq<char>) -> Seq<char> {
    "app-"@ + folder
}

/// Title of the window that shows the application in `folder`.
pub open spec fn window_title(folder: Seq<char>) -> Seq<char> {
    "Sandra App: "@ + folder
}

/// Address that opens the index page of the application in `folder`.
pub open spec fn window_url(folder: Seq<char>) -> Seq<char> {
    APP_ORIGIN@ + folder + "/"@
}

/// The file whose presence shows that the application in `folder` is
/// installed, relative to the installed-applications root: the index page
/// that the local bundle server serves for the application. A folder whose
/// index page would lie above the root has none.
pub open spec fn install_marker(folder: Seq<char>) -> Option<Seq<char>> {
    if stays_below_root(under_dist(folder, "index.html"@)) {
        Some(under_dist(folder, "index.html"@))
    } else {
        None
    }
}

/// Label of the window that shows the application in `folder`.
pub fn app_window_label(folder: &str) -> (r: String)
    ensures
        r@ == window_label(folder@),
{
    String::from_str("app-").concat(folder)
}

/// Title of the window that shows the application in `folder`.
pub fn app_window_title(folder: &str) -> (r: String)
    ensures
        r@ == window_title(folder@),
{
    String::from_str("Sandra App: ").concat(folder)
}

/// Address that opens the index page of the application in `folder`.
pub fn app_window_url(folder: &str) -> (r: String)
    ensures
        r@ == window_url(folder@),
{
    String::from_str(APP_ORIGIN).concat(folder).concat("/")
}

/// The file whose presence shows that the application in `folder` is
/// installed; none for a folder that points above the root.
pub fn app_install_marker(folder: &str) -> (r: Option<String>)
    ensures
        r.deep_view() == install_marker(folder@),
        r matches Some(marker) ==> stays_below_root(marker@),
{
    let marker = build_under_dist(folder, "index.html");
    if is_below_root(marker.as_str()) {
        Some(marker)
    } else {
        None
    }
}

} // verus!
