# DevVoice

A desktop application and local HTTP API that speaks selected text with local
text-to-speech models.

`src/` is the library. It holds every decision of the application as a verified
function: how a text is normalised and cut into chunks, which requests a model takes,
how texts are queued, spoken, skipped and stopped, how presets are named and found,
how a model's files are fetched and its runtime set up, and how the HTTP API answers.
What happens between the application and the world is told by small state machines: a
job asks for a step, whoever runs it performs the step and hands back the outcome.

The modules whose names end in `_laws` state what holds across several functions, such
as that chunking loses nothing but white space, that a stop cancels whatever is being
spoken, and that every preset is found by its name.

`app/` runs the library: files, processes, the network, the models, the audio device
and the desktop shell. The shell is built on macOS only. The MLX worker script
`vibevoice_mlx_worker.py` is expected beside the program.

`tests/` runs the library on concrete values.
