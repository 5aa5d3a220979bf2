use pimad_edge::system::domain::InternalEvent;
use pimad_edge::system::timer::TimerOrder;
use pimad_edge::third_layer::metrics::domain::{
    calculate_rssi_from_dbm, metrics_on_connection, read_service_memory_mb, read_wifi_from_iw, read_wifi_from_proc,
    read_wifi_signal, service_memory_kb, WifiSignal,
};

const WIRELESS: &str = "Inter-| sta-|   Quality        |   Discarded packets               | Missed | WE\n face | tus | link level noise |  nwid  crypt   frag  retry   misc | beacon | 22\n  wlan0: 0000   54.  -56.  -256        0      0      0      0     12        0\n";

const IW: &str = "Connected to aa:bb:cc:dd:ee:ff (on wlan0)\n\tSSID: home\n\tfreq: 2437\n\tsignal: -60 dBm\n\ttx bitrate: 72.2 MBit/s\n";

#[test]
fn rssi_scale() {
    assert_eq!(calculate_rssi_from_dbm(-95), 0);
    assert_eq!(calculate_rssi_from_dbm(-90), 0);
    assert_eq!(calculate_rssi_from_dbm(-60), 50);
    assert_eq!(calculate_rssi_from_dbm(-56), 56);
    assert_eq!(calculate_rssi_from_dbm(-30), 100);
    assert_eq!(calculate_rssi_from_dbm(-10), 100);
}

#[test]
fn wifi_from_proc_report() {
    assert_eq!(read_wifi_from_proc(WIRELESS, "wlan0"), Some(WifiSignal { rssi: 54, dbm: -56 }));
    assert_eq!(read_wifi_from_proc(WIRELESS, "wlan1"), None);
    assert_eq!(read_wifi_from_proc("h1\nh2\n", "wlan0"), None);
    assert_eq!(read_wifi_from_proc("h1\nh2\nwlan0: 0000 x.\n", "wlan0"), None);
    assert_eq!(read_wifi_from_proc("h1\nh2\nwlan0: 0000 abc. -56.\n", "wlan0"), None);
}

#[test]
fn wifi_from_iw_output() {
    assert_eq!(read_wifi_from_iw(IW), Some(WifiSignal { rssi: 50, dbm: -60 }));
    assert_eq!(read_wifi_from_iw("Not connected.\n"), None);
    assert_eq!(read_wifi_from_iw("\tsignal:\n"), None);
}

#[test]
fn wifi_signal_prefers_proc() {
    assert_eq!(read_wifi_signal(Some(WIRELESS), Some(IW), "wlan0"), Some(WifiSignal { rssi: 54, dbm: -56 }));
    assert_eq!(read_wifi_signal(Some("h1\nh2\n"), Some(IW), "wlan0"), Some(WifiSignal { rssi: 50, dbm: -60 }));
    assert_eq!(read_wifi_signal(None, None, "wlan0"), None);
}

#[test]
fn service_memory_from_status() {
    let status = "Name:\tpimad\nVmPeak:\t  9000 kB\nVmRSS:\t   20480 kB\nThreads:\t4\n";
    assert_eq!(service_memory_kb(status), Some(20480));
    assert_eq!(read_service_memory_mb(status), Some(20));
    assert_eq!(read_service_memory_mb("Name:\tx\n"), None);
    assert_eq!(read_service_memory_mb("VmRSS:\n"), None);
    assert_eq!(read_service_memory_mb("VmRSS: lots kB\n"), None);
}

#[test]
fn metrics_timer_follows_server() {
    assert_eq!(metrics_on_connection(&InternalEvent::ServerConnected), Some(TimerOrder::Init(30)));
    assert_eq!(metrics_on_connection(&InternalEvent::ServerDisconnected), Some(TimerOrder::Stop));
    assert_eq!(metrics_on_connection(&InternalEvent::LocalConnected), None);
}
