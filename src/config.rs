//! Configuration records and their default values. The file format is read
//! outside the library; these are the plain values it yields.
use vstd::prelude::*;
use vstd::string::StringExecFns;

verus! {

/// Settings of the local display of a video-network source.
pub struct DisplayConfig {
    /// Source name to display (partial match).
    pub source: String,
    /// Framebuffer device.
    pub fb_device: String,
}

/// Network settings of the appliance.
pub struct NetworkConfig {
    /// "dhcp" or "static".
    pub mode: String,
    /// Static address with prefix length (e.g. "192.168.1.100/24").
    pub address: Option<String>,
    /// Gateway address.
    pub gateway: Option<String>,
    /// DNS server.
    pub dns: Option<String>,
}

/// Default framebuffer device.
pub fn default_fb_device() -> (r: String)
    ensures
        r@ == "/dev/fb0"@,
{
    String::from_str("/dev/fb0")
}

/// Default intercom stream name.
pub fn default_intercom_stream() -> (r: String)
    ensures
        r@ == "cam1"@,
{
    String::from_str("cam1")
}

/// Default host that intercom packets go to.
pub fn default_intercom_target() -> (r: String)
    ensures
        r@ == "strih.lan"@,
{
    String::from_str("strih.lan")
}

/// Default intercom sample rate in Hz.
pub fn default_intercom_sample_rate() -> (r: u32)
    ensures
        r == 48000,
{
    48000
}

/// Default intercom channel count.
pub fn default_intercom_channels() -> (r: u8)
    ensures
        r == 2,
{
    2
}

/// Default host name of the appliance.
pub fn default_hostname() -> (r: String)
    ensures
        r@ == "camera-box"@,
{
    String::from_str("camera-box")
}

/// Default name of the video-network source.
pub fn default_ndi_name() -> (r: String)
    ensures
        r@ == "usb"@,
{
    String::from_str("usb")
}

/// Default capture device: "auto", detect the first one.
pub fn default_device() -> (r: String)
    ensures
        r@ == "auto"@,
{
    String::from_str("auto")
}

} // verus!
