[package]
name = "ws_core"
version = "0.1.0"
edition = "2021"
publish = false

[dependencies]
time = { version = "0.3", features = ["formatting"] }
uuid = { version = "1", features = ["v4"] }
serde = { version = "1", features = ["derive"] }
serde_json = "1"
thiserror = "*"
serde_dynamo = { version = "4", features = ["aws-sdk-dynamodb+1"] }
aws-config = { version = "1", features = ["behavior-version-latest"] }
aws-sdk-dynamodb = "1"
aws-sdk-apigatewaymanagement = "1"
aws_lambda_events = "*"
lambda_runtime = "*"
lambda_http = "*"
axum = "*"
tower-http = { version = "*", features = ["cors"] }
tokio = { version = "1", features = ["macros", "rt-multi-thread"] }
tracing = "0.1"
