[package]
name = "wincs"
version = "0.1.0"
edition = "2021"
publish = false

[dependencies]
flagset = "0.4"
globset = "0.4"
nt-time = "*"
widestring = "1"

[dependencies.windows]
version = "0.58"
features = [
    "Foundation",
    "Foundation_Collections",
    "Storage",
    "Storage_Provider",
    "Storage_Streams",
    "Win32_Foundation",
    "Win32_Security",
    "Win32_Security_Authorization",
    "Win32_Storage_CloudFilters",
    "Win32_Storage_FileSystem",
    "Win32_System_Com",
    "Win32_System_CorrelationVector",
    "Win32_System_IO",
    "Win32_System_Search",
]
