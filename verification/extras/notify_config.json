{
  "alert_done_sound": "sounds/done.wav",
  "extra_alert_done_sounds": [],
  "alert_await_user_input_sound": "sounds/await.wav",
  "extra_alert_await_sounds": ["sounds/await_2.wav"],
  "loop_gap_millis": [8000, 5000, 3000],
  "loop_jitter_millis": [1000, 500, 0],
  "escalate_waits_secs": [60, 120]
}
