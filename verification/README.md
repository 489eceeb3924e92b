# EMS (External Media Server)

EMS is an AudioSocket server that enriches calls with speech recognition, speech synthesis, audio
playback and call termination. Clients control it over WebSocket.

## Layout

* `src/` is the library: AudioSocket messages, message handlers, the handler database, services, the
  WebSocket API, configuration, and the Google Cloud drivers, as functions on plain values. All of it
  is verified with Verus.
* `app/` is the program: sockets, timers, the configuration file, JSON, gRPC and access tokens. It
  feeds events to the library and carries out what it decides.
* `tests/` holds the tests of the library.

What the library takes from other crates (`audiosocket`, `dashmap`, `deadqueue`, `flume`, `tonic`) it
calls through a few small functions, whose doc comments say what is taken for granted of them.

## Usage

The program reads `./ems.toml`, or the file that `--config` names:

```toml
audiosocket_addr = "0.0.0.0:12345"
websocket_addr = "0.0.0.0:12346"

recognition_driver = "google"
synthesis_driver = "google"

[gcs]
service_account_path = "./my_gcs_key.json"

[gctts]
service_account_path = "./my_gctts_key.json"
```

| Key                          | Default         | Meaning                                                           |
|------------------------------|-----------------|-------------------------------------------------------------------|
| `threads`                    | all CPU threads | how many threads EMS may use                                      |
| `audiosocket_addr`           | required        | address for AudioSocket clients                                   |
| `websocket_addr`             | required        | address for WebSocket clients                                     |
| `message_timeout`            | 3               | seconds to wait for the next AudioSocket message                  |
| `recognition_config_timeout` | 3               | seconds to wait for the speech recognition config of a call       |
| `recognition_driver`         | none            | `google`                                                          |
| `synthesis_driver`           | none            | `google`                                                          |
| `gcs`                        | none            | Google Cloud Speech-to-Text settings                              |
| `gctts`                      | none            | Google Cloud Text-to-Speech settings                              |
| `recognition_fallback`       | `en-US`         | speech recognition config of calls for which no client gives one  |
| `loopback_audio`             | false           | send all received audio back                                      |

The TLS certificates of Google services are read from `./google/cert.pem`.

## WebSocket API

Every message holds the UUID of a call as `id`, and one of these as `data`.

Requests:

* `"Hangup"`
* `{"Synthesize": {"ssml": "Hello, world", "language_code": "en-US", "gender": "neutral", "speaking_rate": 2, "pitch": 1}}`,
  where `gender`, `speaking_rate` and `pitch` are optional
* `{"RecognitionConfig": {"language": "en-US", "profanity_filter": false, "punctuation": false}}`,
  where `profanity_filter` and `punctuation` are optional

Responses:

* `{"Transcription": "Hello, world"}`
* `"RecognitionConfigRequest"`
