use vstd::prelude::*;
use crate::probe::SyncStatus;
use crate::readiness::sync_text;
use crate::text::{decimal, decimal_text};

verus! {

pub open spec fn connection_label(connected: bool) -> Seq<char> {
    if connected {
        "✅ Connected"@
    } else {
        "❌ Failed"@
    }
}

pub open spec fn process_label(running: Option<bool>) -> Seq<char> {
    match running {
        Some(true) => "✅ Running"@,
        Some(false) => "❌ Stopped"@,
        None => "❓ Unknown"@,
    }
}

pub open spec fn disk_usage_label(pct: Option<u32>) -> Seq<char> {
    match pct {
        Some(d) => decimal(d as nat) + "%"@,
        None => "N/A"@,
    }
}

/// A load in thousandths, rounded half up to one decimal place.
pub open spec fn load_label(milli: Option<u64>) -> Seq<char> {
    match milli {
        Some(m) => {
            let tenths = (m as nat + 50) / 100;
            " "@ + decimal(tenths / 10) + "."@ + decimal(tenths % 10)
        },
        None => " N/A"@,
    }
}

pub open spec fn sync_label_of(s: Option<SyncStatus>) -> Seq<char> {
    match s {
        Some(_) => " "@ + sync_text(s),
        None => " N/A"@,
    }
}

pub open spec fn swap_ready_label(ready: Option<bool>) -> Seq<char> {
    match ready {
        Some(true) => "✅ Ready"@,
        Some(false) => "❌ Not Ready"@,
        None => "❓ Unknown"@,
    }
}

pub open spec fn verification_label(verified: Option<bool>) -> Seq<char> {
    match verified {
        Some(true) => "✅ Verified"@,
        Some(false) => "❌ Failed"@,
        None => "⏳ Checking"@,
    }
}

pub fn format_connection_status(connected: bool) -> (r: String)
    ensures
        r@ == connection_label(connected),
{
    if connected {
        String::from_str("✅ Connected")
    } else {
        String::from_str("❌ Failed")
    }
}

pub fn format_process_status(running: Option<bool>) -> (r: String)
    ensures
        r@ == process_label(running),
{
    match running {
        Some(true) => String::from_str("✅ Running"),
        Some(false) => String::from_str("❌ Stopped"),
        None => String::from_str("❓ Unknown"),
    }
}

pub fn format_disk_usage(pct: Option<u32>) -> (r: String)
    ensures
        r@ == disk_usage_label(pct),
{
    match pct {
        Some(d) => {
            let mut r = decimal_text(d as u64);
            r.append("%");
            r
        },
        None => String::from_str("N/A"),
    }
}

pub fn format_system_load(milli: Option<u64>) -> (r: String)
    ensures
        r@ == load_label(milli),
{
    match milli {
        Some(m) => {
            let tenths: u64 = if m > u64::MAX - 50 {
                (m / 100) + (if m % 100 >= 50 {
                    1u64
                } else {
                    0u64
                })
            } else {
                (m + 50) / 100
            };
            assert(tenths == (m as nat + 50) / 100) by (nonlinear_arith)
                requires
                    m > u64::MAX - 50 ==> tenths == (m / 100) + (if m % 100 >= 50 {
                        1u64
                    } else {
                        0u64
                    }),
                    m <= u64::MAX - 50 ==> tenths == (m + 50) / 100,
            ;
            let mut r = String::from_str(" ");
            let whole = decimal_text(tenths / 10);
            r.append(whole.as_str());
            r.append(".");
            let frac = decimal_text(tenths % 10);
            r.append(frac.as_str());
            r
        },
        None => String::from_str(" N/A"),
    }
}

pub fn format_sync_status(s: Option<SyncStatus>) -> (r: String)
    ensures
        r@ == sync_label_of(s),
{
    match s {
        Some(_) => {
            let mut r = String::from_str(" ");
            let t = crate::readiness::sync_status_label(s);
            r.append(t.as_str());
            r
        },
        None => String::from_str(" N/A"),
    }
}

pub fn format_version(version: Option<&str>) -> (r: String)
    ensures
        r@ == match version {
            Some(v) => v@,
            None => "N/A"@,
        },
{
    match version {
        Some(v) => String::from_str(v),
        None => String::from_str("N/A"),
    }
}

pub fn format_swap_readiness(ready: Option<bool>) -> (r: String)
    ensures
        r@ == swap_ready_label(ready),
{
    match ready {
        Some(true) => String::from_str("✅ Ready"),
        Some(false) => String::from_str("❌ Not Ready"),
        None => String::from_str("❓ Unknown"),
    }
}

pub fn format_verification_status(verified: Option<bool>) -> (r: String)
    ensures
        r@ == verification_label(verified),
{
    match verified {
        Some(true) => String::from_str("✅ Verified"),
        Some(false) => String::from_str("❌ Failed"),
        None => String::from_str("⏳ Checking"),
    }
}

} // verus!
