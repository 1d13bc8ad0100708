# richtap_vibrator

An Android vibrator service for AAC RichTap linear actuators on devices with
a plain LED-class vibrator in sysfs. It answers the standard `IVibrator`
interface and the vendor `IRichtapVibrator` extension.

`src/` is the service's decision logic, verified with Verus:

- `effects`: the standard effects and the waveform index and duration each is played with.
- `vibrator`, `richtap`: what each request of the two services does and answers.
- `sysfs`: the node writes that run and stop the motor, and the node paths.
- `envelope`: amplitude envelopes, their click shortcut and their timed playback.
- `he`, `he_playback`: haptic-effect patterns, their parse, and their looped playback.
- `logger`: the property values that switch debug logging on.
- `output`: actions, amplitudes, playback steps and error replies.

Playbacks are step machines: the caller runs each step (a pulse, a stop or a
wait) and hands in the current command number; a newer command ends them.

`app/` is the process around it: sysfs file access, playback threads, the
floating-point amplitude arithmetic, the system property read and binder.
