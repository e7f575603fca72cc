use auth_core::SystemMonitorService;

#[test]
fn test_format_bytes() {
    assert_eq!(SystemMonitorService::format_bytes(1024), "1.0 KB");
    assert_eq!(SystemMonitorService::format_bytes(1048576), "1.0 MB");
    assert_eq!(SystemMonitorService::format_bytes(1073741824), "1.0 GB");
    assert_eq!(SystemMonitorService::format_bytes(512), "512.0 B");
}

#[test]
fn test_format_uptime() {
    assert_eq!(SystemMonitorService::format_uptime(3661), "1h 1m");
    assert_eq!(SystemMonitorService::format_uptime(86400), "1d 0h 0m");
    assert_eq!(SystemMonitorService::format_uptime(3600), "1h 0m");
    assert_eq!(SystemMonitorService::format_uptime(120), "2m");
}

#[test]
fn format_bytes_rounds_to_one_decimal() {
    assert_eq!(SystemMonitorService::format_bytes(1536), "1.5 KB");
    assert_eq!(SystemMonitorService::format_bytes(0), "0.0 B");
    assert_eq!(SystemMonitorService::format_bytes(1023), "1023.0 B");
    // ties go to the even tenth, as a one-decimal float display would
    assert_eq!(SystemMonitorService::format_bytes(1280), "1.2 KB");
    assert_eq!(SystemMonitorService::format_bytes(1792), "1.8 KB");
}

#[test]
fn format_uptime_minutes_only() {
    assert_eq!(SystemMonitorService::format_uptime(0), "0m");
    assert_eq!(SystemMonitorService::format_uptime(59), "0m");
    assert_eq!(SystemMonitorService::format_uptime(90061), "1d 1h 1m");
}
