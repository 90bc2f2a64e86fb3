[package]
name = "karakuri-syphon"
version = "0.1.0"
edition = "2021"
publish = false

[dependencies]
dispatch2 = { version = "=0.3.1", default-features = false, features = ["std", "objc2"] }
objc2 = "=0.6.5"
objc2-core-foundation = { version = "=0.3.2", default-features = false, features = ["std", "CFData", "CFDate", "CFMessagePort", "CFString", "dispatch2", "objc2"] }
objc2-foundation = { version = "=0.3.2", default-features = false, features = ["std", "NSArray", "NSCoder", "NSData", "NSDictionary", "NSDistributedNotificationCenter", "NSEnumerator", "NSError", "NSKeyedArchiver", "NSNotification", "NSObjCRuntime", "NSObject", "NSRange", "NSString", "NSUUID", "NSValue"] }
serde = { version = "=1.0.229", features = ["derive"] }
serde_json = "=1.0.154"
