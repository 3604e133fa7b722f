[package]
name = "certgen"
version = "0.1.0"
edition = "2021"
publish = false

[dependencies]
closure = "0.3"
const-oid = { version = "0.9", features = ["db"] }
der = { version = "0.7", features = ["alloc", "oid", "pem", "std"] }
ecdsa = { version = "0.16", features = ["der", "pem", "pkcs8", "signing", "verifying"] }
ed25519-dalek = { version = "2", features = ["pem", "pkcs8", "rand_core"] }
elliptic-curve = { version = "0.13", features = ["arithmetic", "pem", "pkcs8", "sec1"] }
enum-iterator = "1"
k256 = { version = "0.13", features = ["ecdsa", "pem", "pkcs8", "sha256"] }
num_enum = "0.7"
p256 = { version = "0.13", features = ["ecdsa", "pem", "pkcs8", "sha256"] }
p384 = { version = "0.13", features = ["ecdsa", "pem", "pkcs8", "sha384"] }
parse-display = "0.8"
pkcs1 = { version = "0.7", features = ["alloc", "pem"] }
pkcs8 = { version = "0.10", features = ["alloc", "pem"] }
rand = "0.8"
rsa = { version = "0.9", features = ["pem", "sha2"] }
sha2 = { version = "0.10", features = ["oid"] }
signature = { version = "2", features = ["rand_core"] }
spki = { version = "0.7", features = ["alloc", "pem"] }
time = "0.3"
uuid = { version = "1", features = ["v4"] }
wasm-bindgen = "0.2"
web-sys = { version = "0.3", features = ["Event", "EventTarget", "HtmlCollection", "HtmlInputElement", "HtmlOptionElement", "HtmlSelectElement", "HtmlTextAreaElement"] }
x509-cert = { version = "0.2", features = ["pem"] }
yew = { version = "0.20", features = ["csr"] }
