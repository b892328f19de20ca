# rustysynth

The control core of a SoundFont MIDI synthesizer, verified with Verus.

`src/` is the verified library:

- SoundFont files: the RIFF reader (`binary_reader`, `soundfont_info`,
  `soundfont_sampledata`, `soundfont_parameters`), the records of the pdta list
  (`*_info`, `sample_header`, `generator`, `modulator`, `zone`), the instruments and
  presets built from them (`instrument*`, `preset*`), modulator validation and merging,
  and the sanity check of a loaded SoundFont (`soundfont`).
- Standard MIDI files: track parsing, loop extensions and merging (`midifile`), and
  the playback cursor (`sequencer`).
- Synthesizer control: channel state with RPN/NRPN and GS/XG parameters (`channel`),
  SysEx decoding (`sysex`), the synthesizer's integer state and what each MIDI message
  does to it (`synthesizer_state`), preset lookup (`preset_lookup`), the regions a note
  sounds (`note_regions`, `region_pair`), voice slots (`voice_pool`) and the modulators
  of a voice (`voice_modulators`).

`app/` holds what the library leaves out: reading files, playback time in seconds (from
the exact tick spans that the library computes), and the floating-point building blocks
of the signal path: channel levels, modulation curves, the oscillator, the filter, reverb
and chorus. It does not assemble them into voices or a block renderer: the envelopes, the
LFOs and the unit conversions (timecents, cents, centibels) that a voice needs are not
part of this project.

`tests/` runs the library on concrete inputs.
