//! Home Assistant MQTT integration logic for the wooden-box ESP32 firmware:
//! discovery topics and payloads, the dispatch of incoming MQTT messages,
//! the decisions of the MQTT session loop and of the board (button, LEDs),
//! and number formatting for sensor readings. Text is built in
//! fixed-capacity `heapless` strings.
pub mod text;
pub mod config;
pub mod discovery;
pub mod mqtt;
pub mod network_clock;
pub mod wifi;
pub mod board;
