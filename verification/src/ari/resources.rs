//! ARI resources (applications, endpoints, sounds, playbacks) and the paths
//! their requests go to.
use vstd::prelude::*;
use crate::text::concat_str;

verus! {

/// ari stasis application representation
pub struct Application {
    pub name: String,
    pub channel_ids: Vec<String>,
    pub bridge_ids: Vec<String>,
    pub endpoint_ids: Vec<String>,
    pub device_names: Vec<String>,
}

/// ari endpoint representation
pub struct Endpoint {
    pub technology: String,
    pub resource: String,
    pub state: Option<String>,
    pub channel_ids: Vec<String>,
}

/// format information for a sound
pub struct SoundFormat {
    pub language: String,
    pub format: String,
}

/// ari sound representation
pub struct Sound {
    pub id: String,
    pub text: String,
    pub formats: Vec<SoundFormat>,
}

/// The path listing all stasis applications.
pub fn applications_path() -> (r: String)
    ensures
        r@ == "/applications"@,
{
    "/applications".to_owned()
}

/// The path of one stasis application.
pub fn application_path(app_name: &str) -> (r: String)
    ensures
        r@ == "/applications/"@ + app_name@,
{
    concat_str("/applications/", app_name)
}

/// The path listing all endpoints.
pub fn endpoints_path() -> (r: String)
    ensures
        r@ == "/endpoints"@,
{
    "/endpoints".to_owned()
}

/// The path listing the endpoints of one technology.
pub fn endpoints_by_tech_path(tech: &str) -> (r: String)
    ensures
        r@ == "/endpoints/"@ + tech@,
{
    concat_str("/endpoints/", tech)
}

/// The path of one endpoint.
pub fn endpoint_path(tech: &str, resource: &str) -> (r: String)
    ensures
        r@ == "/endpoints/"@ + tech@ + "/"@ + resource@,
{
    let a = concat_str("/endpoints/", tech);
    let b = concat_str(a.as_str(), "/");
    concat_str(b.as_str(), resource)
}

/// The path listing all sounds.
pub fn sounds_path() -> (r: String)
    ensures
        r@ == "/sounds"@,
{
    "/sounds".to_owned()
}

/// The path of one sound.
pub fn sound_path(sound_id: &str) -> (r: String)
    ensures
        r@ == "/sounds/"@ + sound_id@,
{
    concat_str("/sounds/", sound_id)
}

/// handle to an ari playback
pub struct PlaybackHandle {
    id: String,
}

impl PlaybackHandle {
    /// The playback's id.
    pub closed spec fn id_view(&self) -> Seq<char> {
        self.id@
    }

    /// A handle to the playback with the given id.
    pub fn new(id: &str) -> (r: Self)
        ensures
            r.id_view() == id@,
    {
        PlaybackHandle { id: id.to_owned() }
    }

    /// The playback's id.
    pub fn id(&self) -> (r: &str)
        ensures
            r@ == self.id_view(),
    {
        self.id.as_str()
    }

    /// The path that controls the playback (pause, unpause, restart,
    /// reverse, forward).
    pub fn control_path(&self, operation: &str) -> (r: String)
        ensures
            r@ == "/playbacks/"@ + self.id_view() + "/control?operation="@ + operation@,
    {
        let a = concat_str("/playbacks/", self.id.as_str());
        let b = concat_str(a.as_str(), "/control?operation=");
        concat_str(b.as_str(), operation)
    }

    /// The path of the playback (to get its state, or to stop it).
    pub fn path(&self) -> (r: String)
        ensures
            r@ == "/playbacks/"@ + self.id_view(),
    {
        concat_str("/playbacks/", self.id.as_str())
    }
}

} // verus!
